use chip8::callback::{CallbackData, Chip8Callback, PixelEvent};
use chip8::chip::{Chip8, RegisterError, INSTRUCTION_PERIOD_NANOS};
use chip8::instruction::{decode, Instruction, Operands};
use chip8::memory::{Memory, MemoryError};
use chip8::ops::Opcode;
use chip8::register::Registers;

struct Rig {
    ram: Memory,
    stack: Memory,
    reg: Registers,
    keys: [bool; 16],
    screen: [u8; 2048],
    cb: Chip8Callback<()>,
}

impl Rig {
    fn new() -> Rig {
        Rig {
            ram: Memory::new(0x1000),
            stack: Memory::new(0x20),
            reg: Registers::new(),
            keys: [false; 16],
            screen: [0; 2048],
            cb: Chip8Callback::new(),
        }
    }

    fn run_with(&mut self, word: u16, random: u8) {
        let ins = decode(word, self.reg.pc);
        ins.execute_with(
            random,
            &mut self.ram,
            &mut self.stack,
            &mut self.reg,
            &self.keys,
            &mut self.screen,
            &mut self.cb,
        );
    }

    fn run(&mut self, word: u16) {
        let ins = decode(word, self.reg.pc);
        ins.execute(
            &mut self.ram,
            &mut self.stack,
            &mut self.reg,
            &self.keys,
            &mut self.screen,
            &mut self.cb,
        );
    }
}

// ------------------------------------------------------------------ memory

#[test]
fn memory_reads_and_writes_bytes() {
    let mut m = Memory::new(4);
    assert_eq!(m.len(), 4);
    assert_eq!(m.read8(3), Ok(0));
    assert_eq!(m.write8(2, 0xAB), Ok(()));
    assert_eq!(m.read8(2), Ok(0xAB));
    assert_eq!(m.read8(4), Err(MemoryError::OutOfBounds { offset: 4, len: 4 }));
    assert_eq!(m.write8(4, 1), Err(MemoryError::OutOfBounds { offset: 4, len: 4 }));
}

#[test]
fn memory_words_are_big_endian() {
    let mut m = Memory::new(4);
    assert_eq!(m.write16(1, 0x1234), Ok(()));
    assert_eq!(m.read8(1), Ok(0x12));
    assert_eq!(m.read8(2), Ok(0x34));
    assert_eq!(m.read16(1), Ok(0x1234));
    assert_eq!(m.read16(3), Err(MemoryError::OutOfBounds { offset: 4, len: 4 }));
    assert_eq!(m.write16(3, 1), Err(MemoryError::OutOfBounds { offset: 4, len: 4 }));
    assert_eq!(m.read8(3), Ok(0));
}

#[test]
fn word_access_on_a_one_byte_memory_fails() {
    let mut m = Memory::new(1);
    assert!(m.read16(0).is_err());
    assert!(m.write16(0, 7).is_err());
}

#[test]
fn write_range_then_read_back_round_trips() {
    let mut m = Memory::new(16);
    let bytes = [9u8, 8, 7, 6, 5];
    assert_eq!(m.write8_range(3, 8, &bytes), Ok(()));
    for (k, b) in bytes.iter().enumerate() {
        assert_eq!(m.read8(3 + k as u16), Ok(*b));
    }
    assert_eq!(m.read8(2), Ok(0));
    assert_eq!(m.read8(8), Ok(0));
}

#[test]
fn write_range_reversed_fails_without_change() {
    let mut m = Memory::new(8);
    m.write8(4, 1).unwrap();
    assert_eq!(
        m.write8_range(5, 2, &[1, 2, 3]),
        Err(MemoryError::InvalidRange { start: 5, end: 2 })
    );
    for k in 0..8u16 {
        assert_eq!(m.read8(k), Ok(if k == 4 { 1 } else { 0 }));
    }
}

#[test]
fn write_range_empty_is_a_no_op() {
    let mut m = Memory::new(4);
    assert_eq!(m.write8_range(9, 9, &[1, 2]), Ok(()));
    assert_eq!(m.read8(0), Ok(0));
}

#[test]
fn write_range_past_the_end_fails() {
    let mut m = Memory::new(4);
    assert_eq!(
        m.write8_range(2, 5, &[1, 2, 3]),
        Err(MemoryError::OutOfBounds { offset: 4, len: 4 })
    );
    assert_eq!(m.read8(2), Ok(0));
    assert_eq!(m.write8_range(2, 4, &[1, 2]), Ok(()));
    assert_eq!(m.read8(3), Ok(2));
}

#[test]
fn write_range_stops_at_the_shorter_of_range_and_content() {
    let mut m = Memory::new(8);
    assert_eq!(m.write8_range(1, 6, &[4, 4]), Ok(()));
    assert_eq!(m.read8(2), Ok(4));
    assert_eq!(m.read8(3), Ok(0));
    assert_eq!(m.write8_range(5, 7, &[1, 2, 3]), Ok(()));
    assert_eq!(m.read8(6), Ok(2));
    assert_eq!(m.read8(7), Ok(0));
}

// ------------------------------------------------------------------ registers and timers

#[test]
fn registers_start_at_the_program() {
    let r = Registers::new();
    assert_eq!(r.v, [0; 16]);
    assert_eq!(r.pc, 0x200);
    assert_eq!((r.sp, r.i, r.dt, r.st), (0, 0, 0, 0));
}

#[test]
fn timers_drop_once_per_period_and_stop_at_zero() {
    let mut r = Registers::new();
    r.dt = 3;
    r.st = 0;
    r.tick_timers(16_666_665, 20_000_000);
    assert_eq!((r.dt, r.st), (3, 0));
    r.tick_timers(16_666_666, 16_666_666);
    assert_eq!((r.dt, r.st), (2, 0));
}

// ------------------------------------------------------------------ decoding

#[test]
fn decode_operand_fields() {
    let ins = decode(0xD12F, 0x200);
    assert_eq!(
        *ins.borrow_operands(),
        Operands { nnn: 0x12F, nibble: 0xF, x: 1, y: 2, kk: 0x2F }
    );
    assert_eq!(ins.operation(), Opcode::DrwRegRegNibble);
}

#[test]
fn decode_texts() {
    assert_eq!(decode(0x00E0, 0x200).get_disassembled(), "0200 - CLS");
    assert_eq!(decode(0x00EE, 0x2A4).get_disassembled(), "02A4 - RET");
    assert_eq!(decode(0x0123, 0x200).get_disassembled(), "0200 - SYS $0123");
    assert_eq!(decode(0x1ABC, 0x200).get_disassembled(), "0200 - JP $0ABC");
    assert_eq!(decode(0x712A, 0x200).get_disassembled(), "0200 - ADD V1, 2A");
    assert_eq!(decode(0x8AB4, 0x200).get_disassembled(), "0200 - ADD VA, VB");
    assert_eq!(decode(0x8306, 0x200).get_disassembled(), "0200 - SHR V3");
    assert_eq!(decode(0xD12F, 0x200).get_disassembled(), "0200 - DRW V1, V2, 15");
    assert_eq!(decode(0xD125, 0x200).get_disassembled(), "0200 - DRW V1, V2, 5");
    assert_eq!(decode(0xE59E, 0x200).get_disassembled(), "0200 - SKP V5");
    assert_eq!(decode(0xF40A, 0x200).get_disassembled(), "0200 - LD V4, K");
    assert_eq!(decode(0xF455, 0x200).get_disassembled(), "0200 - LD [I], V4");
    assert_eq!(decode(0xF465, 0x200).get_disassembled(), "0200 - LD V4, [I]");
    assert_eq!(decode(0xB300, 0x200).get_disassembled(), "0200 - JP V0, $0300");
}

#[test]
fn unmapped_sub_opcodes_stay_blank() {
    for word in [0x8008u16, 0xE000, 0xF0FF] {
        let ins = decode(word, 0x200);
        assert_eq!(ins.get_disassembled(), "");
        assert_eq!(ins.operation(), Opcode::Unknown);
    }
    assert_eq!(decode(0x0123, 0x200).operation(), Opcode::Unknown);
}

#[test]
fn instruction_setters() {
    let mut ins = Instruction::new(String::new(), 0x6A05, 0x0ABC);
    assert_eq!(ins.get_disassembled(), "");
    assert_eq!(ins.operation(), Opcode::Unknown);
    ins.set_disassembled("LD VA, 05".to_string());
    assert_eq!(ins.get_disassembled(), "0ABC - LD VA, 05");
    ins.set_callback(Opcode::LdRegByte);
    assert_eq!(ins.operation(), Opcode::LdRegByte);
}

// ------------------------------------------------------------------ execution

#[test]
fn add_byte_wraps_and_advances() {
    let mut rig = Rig::new();
    rig.reg.v[4] = 0xF0;
    rig.run(0x7420);
    assert_eq!(rig.reg.v[4], 0x10);
    assert_eq!(rig.reg.pc, 0x202);
    assert_eq!(rig.reg.v[15], 0);
}

#[test]
fn add_registers_sets_carry() {
    let mut rig = Rig::new();
    rig.reg.v[1] = 200;
    rig.reg.v[2] = 100;
    rig.run(0x8124);
    assert_eq!(rig.reg.v[1], 44);
    assert_eq!(rig.reg.v[15], 1);
    rig.reg.v[1] = 100;
    rig.reg.v[2] = 155;
    rig.run(0x8124);
    assert_eq!(rig.reg.v[1], 255);
    assert_eq!(rig.reg.v[15], 0);
    assert_eq!(rig.reg.pc, 0x204);
}

#[test]
fn sub_and_subn_borrow() {
    let mut rig = Rig::new();
    rig.reg.v[1] = 5;
    rig.reg.v[2] = 7;
    rig.run(0x8125);
    assert_eq!((rig.reg.v[1], rig.reg.v[15]), (254, 0));
    rig.reg.v[1] = 9;
    rig.run(0x8125);
    assert_eq!((rig.reg.v[1], rig.reg.v[15]), (2, 1));
    rig.reg.v[1] = 9;
    rig.run(0x8127);
    assert_eq!((rig.reg.v[1], rig.reg.v[15]), (254, 0));
    rig.reg.v[1] = 3;
    rig.run(0x8127);
    assert_eq!((rig.reg.v[1], rig.reg.v[15]), (4, 1));
}

#[test]
fn shifts_move_one_bit() {
    let mut rig = Rig::new();
    rig.reg.v[3] = 0b1000_0101;
    rig.run(0x8306);
    assert_eq!((rig.reg.v[3], rig.reg.v[15]), (0b0100_0010, 1));
    rig.run(0x830E);
    assert_eq!((rig.reg.v[3], rig.reg.v[15]), (0b1000_0100, 0));
    rig.run(0x830E);
    assert_eq!((rig.reg.v[3], rig.reg.v[15]), (0b0000_1000, 1));
}

#[test]
fn logic_operations() {
    let mut rig = Rig::new();
    rig.reg.v[0] = 0b1100;
    rig.reg.v[1] = 0b1010;
    rig.run(0x8011);
    assert_eq!(rig.reg.v[0], 0b1110);
    rig.run(0x8012);
    assert_eq!(rig.reg.v[0], 0b1010);
    rig.run(0x8013);
    assert_eq!(rig.reg.v[0], 0);
    rig.run(0x8010);
    assert_eq!(rig.reg.v[0], 0b1010);
}

#[test]
fn skips_compare_registers_and_bytes() {
    let mut rig = Rig::new();
    rig.reg.v[2] = 0x33;
    rig.run(0x3233);
    assert_eq!(rig.reg.pc, 0x204);
    rig.run(0x3234);
    assert_eq!(rig.reg.pc, 0x206);
    rig.run(0x4234);
    assert_eq!(rig.reg.pc, 0x20A);
    rig.reg.v[3] = 0x33;
    rig.run(0x5230);
    assert_eq!(rig.reg.pc, 0x20E);
    rig.run(0x9230);
    assert_eq!(rig.reg.pc, 0x210);
}

#[test]
fn call_then_ret_resumes_after_call() {
    let mut rig = Rig::new();
    rig.reg.pc = 0x240;
    rig.run(0x2456);
    assert_eq!(rig.reg.pc, 0x456);
    assert_eq!(rig.reg.sp, 2);
    assert_eq!(rig.stack.read16(0), Ok(0x240));
    rig.run(0x00EE);
    assert_eq!(rig.reg.pc, 0x242);
    assert_eq!(rig.reg.sp, 0);
}

#[test]
fn call_on_a_full_stack_changes_nothing() {
    let mut rig = Rig::new();
    rig.reg.sp = 0x20;
    rig.run(0x2456);
    assert_eq!(rig.reg.pc, 0x200);
    assert_eq!(rig.reg.sp, 0x20);
}

#[test]
fn ret_on_an_empty_stack_changes_nothing() {
    let mut rig = Rig::new();
    rig.run(0x00EE);
    assert_eq!(rig.reg.pc, 0x200);
    assert_eq!(rig.reg.sp, 0);
}

#[test]
fn jumps() {
    let mut rig = Rig::new();
    rig.run(0x1345);
    assert_eq!(rig.reg.pc, 0x345);
    rig.reg.v[0] = 0x10;
    rig.run(0xB300);
    assert_eq!(rig.reg.pc, 0x310);
}

#[test]
fn index_register_loads() {
    let mut rig = Rig::new();
    rig.run(0xA123);
    assert_eq!(rig.reg.i, 0x123);
    rig.reg.v[5] = 0x10;
    rig.run(0xF51E);
    assert_eq!(rig.reg.i, 0x133);
    rig.reg.v[5] = 0xB;
    rig.run(0xF529);
    assert_eq!(rig.reg.i, 55);
    assert_eq!(rig.reg.pc, 0x206);
}

#[test]
fn rnd_masks_the_drawn_byte() {
    let mut rig = Rig::new();
    rig.run_with(0xC30F, 0xAB);
    assert_eq!(rig.reg.v[3], 0x0B);
    rig.run(0xC300);
    assert_eq!(rig.reg.v[3], 0);
    assert_eq!(rig.reg.pc, 0x204);
}

#[test]
fn timer_transfers() {
    let mut rig = Rig::new();
    rig.reg.v[6] = 42;
    rig.run(0xF615);
    rig.run(0xF618);
    assert_eq!((rig.reg.dt, rig.reg.st), (42, 42));
    rig.reg.dt = 7;
    rig.run(0xF207);
    assert_eq!(rig.reg.v[2], 7);
    assert_eq!(rig.reg.pc, 0x206);
}

#[test]
fn key_skips() {
    let mut rig = Rig::new();
    rig.reg.v[1] = 0xA;
    rig.run(0xE19E);
    assert_eq!(rig.reg.pc, 0x202);
    rig.run(0xE1A1);
    assert_eq!(rig.reg.pc, 0x206);
    rig.keys[0xA] = true;
    rig.run(0xE19E);
    assert_eq!(rig.reg.pc, 0x20A);
    rig.run(0xE1A1);
    assert_eq!(rig.reg.pc, 0x20C);
}

#[test]
fn key_index_past_the_keypad_is_never_held() {
    let mut rig = Rig::new();
    rig.keys = [true; 16];
    rig.reg.v[1] = 200;
    rig.run(0xE19E);
    assert_eq!(rig.reg.pc, 0x202);
    rig.run(0xE1A1);
    assert_eq!(rig.reg.pc, 0x206);
}

#[test]
fn bcd_of_157() {
    let mut rig = Rig::new();
    rig.reg.v[7] = 157;
    rig.reg.i = 0x300;
    rig.run(0xF733);
    assert_eq!(rig.ram.read8(0x300), Ok(1));
    assert_eq!(rig.ram.read8(0x301), Ok(5));
    assert_eq!(rig.ram.read8(0x302), Ok(7));
    assert_eq!(rig.reg.pc, 0x202);
}

#[test]
fn bcd_past_the_end_of_memory_does_nothing() {
    let mut rig = Rig::new();
    rig.reg.v[7] = 157;
    rig.reg.i = 0xFFE;
    rig.run(0xF733);
    assert_eq!(rig.ram.read8(0xFFE), Ok(0));
    assert_eq!(rig.reg.pc, 0x200);
}

#[test]
fn store_and_load_registers() {
    let mut rig = Rig::new();
    for k in 0..16 {
        rig.reg.v[k] = k as u8 + 1;
    }
    rig.reg.i = 0x400;
    rig.run(0xF355);
    for k in 0..4u16 {
        assert_eq!(rig.ram.read8(0x400 + k), Ok(k as u8 + 1));
    }
    assert_eq!(rig.ram.read8(0x404), Ok(0));
    rig.reg.v = [0; 16];
    rig.run(0xF265);
    assert_eq!(&rig.reg.v[0..4], &[1, 2, 3, 0]);
    assert_eq!(rig.reg.pc, 0x204);
}

#[test]
fn store_registers_stops_at_the_end_of_memory() {
    let mut rig = Rig::new();
    rig.reg.v[0] = 0x11;
    rig.reg.v[1] = 0x22;
    rig.reg.i = 0xFFF;
    rig.run(0xF155);
    assert_eq!(rig.ram.read8(0xFFF), Ok(0x11));
    assert_eq!(rig.reg.pc, 0x200);
}

#[test]
fn cls_clears_and_notifies_once() {
    let mut rig = Rig::new();
    rig.screen[5] = 1;
    rig.screen[2047] = 1;
    let ins = decode(0x00E0, 0x200);
    assert!(ins.get_disassembled().ends_with("CLS"));
    rig.run(0x00E0);
    assert!(rig.screen.iter().all(|p| *p == 0));
    assert_eq!(rig.cb.take_events(), vec![PixelEvent::Clear]);
    assert_eq!(rig.reg.pc, 0x202);
}

#[test]
fn drw_wraps_and_collides() {
    let mut rig = Rig::new();
    rig.ram.write8(0x300, 0xFF).unwrap();
    rig.reg.i = 0x300;
    rig.reg.v[1] = 60;
    rig.reg.v[2] = 0;
    rig.run(0xD121);
    let lit: Vec<usize> = (0..64).filter(|x| rig.screen[*x] == 1).collect();
    assert_eq!(lit, vec![0, 1, 2, 3, 60, 61, 62, 63]);
    assert_eq!(rig.reg.v[15], 0);
    let first = rig.cb.take_events();
    let cols: Vec<u8> = first
        .iter()
        .map(|e| match e {
            PixelEvent::SetPixel { x, y: 0 } => *x,
            other => panic!("unexpected {:?}", other),
        })
        .collect();
    assert_eq!(cols, vec![60, 61, 62, 63, 0, 1, 2, 3]);
    rig.run(0xD121);
    assert!(rig.screen.iter().all(|p| *p == 0));
    assert_eq!(rig.reg.v[15], 1);
    let second = rig.cb.take_events();
    assert_eq!(second.len(), 8);
    assert!(second.iter().all(|e| matches!(e, PixelEvent::UnsetPixel { y: 0, .. })));
    assert_eq!(rig.reg.pc, 0x204);
}

#[test]
fn drw_wraps_rows_past_the_bottom() {
    let mut rig = Rig::new();
    rig.ram.write8(0x300, 0x80).unwrap();
    rig.ram.write8(0x301, 0x80).unwrap();
    rig.reg.i = 0x300;
    rig.reg.v[1] = 5;
    rig.reg.v[2] = 31;
    rig.run(0xD122);
    assert_eq!(rig.screen[31 * 64 + 5], 1);
    assert_eq!(rig.screen[5], 1);
    assert_eq!(
        rig.cb.take_events(),
        vec![PixelEvent::SetPixel { x: 5, y: 31 }, PixelEvent::SetPixel { x: 5, y: 0 }]
    );
}

#[test]
fn drw_reports_only_changed_pixels() {
    let mut rig = Rig::new();
    rig.ram.write8(0x300, 0b1010_0000).unwrap();
    rig.reg.i = 0x300;
    rig.run(0xD011);
    assert_eq!(
        rig.cb.take_events(),
        vec![PixelEvent::SetPixel { x: 0, y: 0 }, PixelEvent::SetPixel { x: 2, y: 0 }]
    );
}

#[test]
fn drw_reading_past_memory_stops_without_advancing() {
    let mut rig = Rig::new();
    rig.ram.write8(0xFFF, 0x80).unwrap();
    rig.reg.i = 0xFFF;
    rig.reg.v[15] = 9;
    rig.run(0xD012);
    assert_eq!(rig.screen[0], 1);
    assert_eq!(rig.screen[64], 0);
    assert_eq!(rig.reg.v[15], 0);
    assert_eq!(rig.reg.pc, 0x200);
}

#[test]
fn drw_with_bad_operands_only_advances() {
    let mut rig = Rig::new();
    let mut ins = Instruction::new(String::new(), 0xD000, 0x200);
    ins.set_callback(Opcode::DrwRegRegNibble);
    rig.reg.v[15] = 4;
    ins.execute(&mut rig.ram, &mut rig.stack, &mut rig.reg, &rig.keys, &mut rig.screen, &mut rig.cb);
    assert_eq!(rig.reg.v[15], 0);
    assert_eq!(rig.reg.pc, 0x202);
}

#[test]
fn unknown_instruction_does_nothing() {
    let mut rig = Rig::new();
    rig.run(0x0123);
    rig.run(0x8008);
    assert_eq!(rig.reg.pc, 0x200);
}

// ------------------------------------------------------------------ the machine

fn machine(program: &[u8]) -> Chip8<()> {
    Chip8::build(program).unwrap()
}

fn step(chip: &mut Chip8<()>) -> String {
    let word = chip.fetch_next_instruction().unwrap();
    let text = chip.decode_instruction(word).unwrap().to_string();
    chip.execute_instruction();
    text
}

#[test]
fn build_loads_font_and_program() {
    let chip = machine(&[0x12, 0x34]);
    assert_eq!(chip.borrow_ram().len(), 0x1000);
    assert_eq!(chip.borrow_ram().read8(0), Ok(0xF0));
    assert_eq!(chip.borrow_ram().read8(79), Ok(0x80));
    assert_eq!(chip.borrow_ram().read8(80), Ok(0));
    assert_eq!(chip.fetch_next_instruction(), Ok(0x1234));
    assert!(chip.is_paused());
    assert!(chip.need_to_fetch());
    assert_eq!(chip.borrow_registers().pc, 0x200);
    assert_eq!(chip.borrow_next_instruction().get_disassembled(), "");
}

#[test]
fn build_refuses_a_program_that_does_not_fit() {
    assert!(Chip8::<()>::build(&vec![0u8; 0xE00]).is_ok());
    assert_eq!(
        Chip8::<()>::build(&vec![0u8; 0xE01]).err(),
        Some(MemoryError::OutOfBounds { offset: 0x1000, len: 0x1000 })
    );
}

#[test]
fn wait_for_key_polls() {
    let mut chip = machine(&[0xF3, 0x0A]);
    for _ in 0..3 {
        assert_eq!(step(&mut chip), "0200 - LD V3, K");
        assert_eq!(chip.borrow_registers().pc, 0x200);
    }
    chip.set_key_pressed(7, true);
    step(&mut chip);
    assert_eq!(chip.borrow_registers().pc, 0x202);
    assert_eq!(chip.borrow_registers().v[3], 7);
}

#[test]
fn wait_for_key_takes_the_lowest_held() {
    let mut chip = machine(&[0xF3, 0x0A]);
    chip.set_key_pressed(9, true);
    chip.set_key_pressed(4, true);
    step(&mut chip);
    assert_eq!(chip.borrow_registers().v[3], 4);
}

#[test]
fn machine_runs_a_small_program() {
    // LD V0, 05; ADD V0, 03; LD I, V0 (glyph of 8); DRW V1, V1, 5
    let mut chip = machine(&[0x60, 0x05, 0x70, 0x03, 0xF0, 0x29, 0xD1, 0x15]);
    assert_eq!(step(&mut chip), "0200 - LD V0, 05");
    assert_eq!(step(&mut chip), "0202 - ADD V0, 03");
    assert_eq!(step(&mut chip), "0204 - LD I, V0");
    assert_eq!(chip.borrow_registers().i, 40);
    assert_eq!(step(&mut chip), "0206 - DRW V1, V1, 5");
    // the top row of the glyph of 8 is 0xF0: four lit cells
    assert_eq!(&chip.borrow_screen()[0..8], &[1, 1, 1, 1, 0, 0, 0, 0]);
    let events = chip.borrow_mut_callbacks().take_events();
    assert_eq!(events.len(), 16);
    assert_eq!(chip.borrow_registers().pc, 0x208);
}

#[test]
fn register_writes() {
    let mut chip = machine(&[]);
    assert_eq!(chip.set_register_value(15, 9), Ok(()));
    assert_eq!(chip.borrow_registers().v[15], 9);
    assert_eq!(
        chip.set_register_value(16, 9),
        Err(RegisterError::InvalidRegister { index: 16 })
    );
}

#[test]
fn key_indices_past_the_keypad_are_ignored() {
    let mut chip = machine(&[0xF3, 0x0A]);
    chip.set_key_pressed(16, true);
    step(&mut chip);
    assert_eq!(chip.borrow_registers().pc, 0x200);
}

#[test]
fn pause_and_fetch_flags() {
    let mut chip = machine(&[]);
    chip.set_pause(false);
    assert!(!chip.is_paused());
    chip.set_need_to_fetch(false);
    assert!(!chip.need_to_fetch());
}

#[test]
fn callback_data_round_trip() {
    let mut chip: Chip8<u32> = Chip8::build(&[]).unwrap();
    let cbs = chip.borrow_mut_callbacks();
    assert!(cbs.borrow_callback_data().get().is_none());
    cbs.set_callback_data(CallbackData::new(41u32));
    if let Some(v) = cbs.borrow_mut_callback_data().get_mut() {
        *v += 1;
    }
    assert_eq!(cbs.borrow_callback_data().get(), Some(&42));
    assert!(cbs.take_events().is_empty());
    assert!(CallbackData::<u32>::empty().get().is_none());
}

#[test]
fn tick_decodes_then_runs_when_due() {
    let mut chip = machine(&[0x60, 0x2A, 0x70, 0x01]);
    chip.set_pause(false);
    let report = chip.tick(INSTRUCTION_PERIOD_NANOS - 1).unwrap();
    assert_eq!(report.disassembly.as_deref(), Some("0200 - LD V0, 2A"));
    assert!(!report.executed);
    assert!(!chip.need_to_fetch());
    let report = chip.tick(INSTRUCTION_PERIOD_NANOS).unwrap();
    assert_eq!(report.disassembly, None);
    assert!(report.executed);
    assert_eq!(chip.borrow_registers().v[0], 0x2A);
    assert!(chip.need_to_fetch());
    let report = chip.tick(INSTRUCTION_PERIOD_NANOS).unwrap();
    assert_eq!(report.disassembly.as_deref(), Some("0202 - ADD V0, 01"));
    assert!(report.executed);
    assert_eq!(chip.borrow_registers().v[0], 0x2B);
    assert_eq!(chip.borrow_registers().pc, 0x204);
}

#[test]
fn tick_while_paused_only_decodes() {
    let mut chip = machine(&[0x60, 0x2A]);
    let report = chip.tick(INSTRUCTION_PERIOD_NANOS * 10).unwrap();
    assert!(report.disassembly.is_some());
    assert!(!report.executed);
    let report = chip.tick(INSTRUCTION_PERIOD_NANOS * 10).unwrap();
    assert!(report.disassembly.is_none());
    assert!(!report.executed);
    assert_eq!(chip.borrow_registers().pc, 0x200);
}

#[test]
fn tick_reports_a_failed_fetch() {
    let mut chip = machine(&[0x1F, 0xFF]);
    chip.set_pause(false);
    assert!(chip.tick(INSTRUCTION_PERIOD_NANOS).unwrap().executed);
    assert_eq!(chip.borrow_registers().pc, 0xFFF);
    assert_eq!(
        chip.tick(INSTRUCTION_PERIOD_NANOS).err(),
        Some(MemoryError::OutOfBounds { offset: 0x1000, len: 0x1000 })
    );
    assert!(chip.need_to_fetch());
}
