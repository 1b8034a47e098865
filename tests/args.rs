use chip8::config::{process_args, ArgsError};

fn args(list: &[&str]) -> Vec<String> {
    list.iter().map(|s| s.to_string()).collect()
}

fn name_of(list: &[&str]) -> Result<String, ArgsError> {
    process_args(&args(list)).map(|c| c.program_name)
}

#[test]
fn program_flag_replaces_the_extension() {
    assert_eq!(name_of(&["chip8", "-p", "pong.rom"]), Ok("pong.ch8".to_string()));
    assert_eq!(name_of(&["chip8", "--program", "a.b.c"]), Ok("a.b.ch8".to_string()));
    assert_eq!(name_of(&["chip8", "--program", "game"]), Ok("game.ch8".to_string()));
}

#[test]
fn later_program_flag_wins_and_other_arguments_are_skipped() {
    assert_eq!(
        name_of(&["chip8", "-v", "-p", "a", "x", "-p", "b.x"]),
        Ok("b.ch8".to_string())
    );
    assert_eq!(name_of(&["chip8", "x", "-p", "-p"]), Ok("-p.ch8".to_string()));
}

#[test]
fn the_first_argument_is_the_command() {
    assert_eq!(name_of(&["-p", "x"]), Err(ArgsError::NoProgramName));
}

#[test]
fn missing_names_are_refused() {
    assert_eq!(name_of(&["chip8", "-p"]), Err(ArgsError::MissingNameAfterFlag));
    assert_eq!(name_of(&["chip8"]), Err(ArgsError::NoProgramName));
    assert_eq!(name_of(&[]), Err(ArgsError::NoProgramName));
    assert_eq!(name_of(&["chip8", "-p", ".rom"]), Err(ArgsError::NoProgramName));
}

#[test]
fn step_mode_is_the_default() {
    let c = process_args(&args(&["chip8", "-p", "a"])).unwrap();
    assert!(!c.auto_next_instruction);
}
