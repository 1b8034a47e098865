use vstd::prelude::*;

verus! {

/// How the host runs the machine.
pub struct Config {
    /// Whether instructions run one after another without waiting for a step request.
    pub auto_next_instruction: bool,
    /// The file name of the program to load.
    pub program_name: String,
}

/// Why the command line names no program.
#[derive(Debug, Clone, Copy, PartialEq, Eq, Structural)]
pub enum ArgsError {
    /// `--program` or `-p` came last, with no name after it.
    MissingNameAfterFlag,
    /// No usable program name was given.
    NoProgramName,
}

/// Whether an argument asks for the program name to follow.
pub open spec fn is_program_flag(a: Seq<char>) -> bool {
    a == "--program"@ || a == "-p"@
}

/// The position of the last dot among the first `k` characters.
pub open spec fn last_dot_before(s: Seq<char>, k: nat) -> Option<nat>
    decreases k,
{
    if k == 0 {
        None
    } else if s[k - 1] == '.' {
        Some((k - 1) as nat)
    } else {
        last_dot_before(s, (k - 1) as nat)
    }
}

/// A file name without its extension: everything before the last dot, if there is one.
pub open spec fn strip_extension(s: Seq<char>) -> Seq<char> {
    match last_dot_before(s, s.len()) {
        Some(d) => s.subrange(0, d as int),
        None => s,
    }
}

/// The program name the arguments from position `i` on leave, starting from `name`: each
/// program flag takes the argument after it, and a later one wins.
pub open spec fn scan_args(args: Seq<String>, i: nat, name: Seq<char>) -> Result<
    Seq<char>,
    ArgsError,
>
    decreases args.len() - i,
{
    if i >= args.len() {
        Ok(name)
    } else if is_program_flag(args[i as int]@) {
        if i + 1 < args.len() {
            scan_args(args, i + 2, strip_extension(args[(i + 1) as int]@))
        } else {
            Err(ArgsError::MissingNameAfterFlag)
        }
    } else {
        scan_args(args, i + 1, name)
    }
}

/// The program file that a command line asks for; its first argument is the command.
pub open spec fn chosen_program(args: Seq<String>) -> Result<Seq<char>, ArgsError> {
    match scan_args(args, 1, Seq::empty()) {
        Ok(n) => if n.len() == 0 {
            Err(ArgsError::NoProgramName)
        } else {
            Ok(n + ".ch8"@)
        },
        Err(e) => Err(e),
    }
}

/// Whether two texts are the same.
fn same_text(a: &str, b: &str) -> (r: bool)
    ensures
        r == (a@ == b@),
{
    let n = a.unicode_len();
    if n != b.unicode_len() {
        return false;
    }
    let mut k: usize = 0;
    while k < n
        invariant
            n == a@.len(),
            n == b@.len(),
            k <= n,
            forall|j: int| 0 <= j < k ==> a@[j] == b@[j],
        decreases n - k,
    {
        if a.get_char(k) != b.get_char(k) {
            return false;
        }
        k = k + 1;
    }
    assert(a@ =~= b@);
    true
}

/// `name` without its extension.
fn strip_name(name: &str) -> (r: String)
    ensures
        r@ == strip_extension(name@),
{
    let n = name.unicode_len();
    let mut k: usize = n;
    while k > 0
        invariant
            n == name@.len(),
            k <= n,
            last_dot_before(name@, n as nat) == last_dot_before(name@, k as nat),
        decreases k,
    {
        if name.get_char(k - 1) == '.' {
            return String::from_str(name.substring_char(0, k - 1));
        }
        k = k - 1;
    }
    String::from_str(name)
}

/// Reads the program name from a command line whose first argument is the command:
/// `--program NAME` or `-p NAME`, the last one winning, with the extension of NAME
/// replaced by `.ch8`.
pub fn process_args(args: &Vec<String>) -> (r: Result<Config, ArgsError>)
    ensures
        match r {
            Ok(c) => chosen_program(args@) == Ok::<Seq<char>, ArgsError>(c.program_name@)
                && !c.auto_next_instruction,
            Err(e) => chosen_program(args@) == Err::<Seq<char>, ArgsError>(e),
        },
{
    let mut name = String::new();
    let mut i: usize = 1;
    while i < args.len()
        invariant
            1 <= i <= args.len() + 1,
            scan_args(args@, 1, Seq::empty()) == scan_args(args@, i as nat, name@),
        decreases args.len() + 1 - i,
    {
        let arg = args[i].as_str();
        if same_text(arg, "--program") || same_text(arg, "-p") {
            if i + 1 < args.len() {
                name = strip_name(args[i + 1].as_str());
                i = i + 2;
            } else {
                return Err(ArgsError::MissingNameAfterFlag);
            }
        } else {
            i = i + 1;
        }
    }
    if name.as_str().unicode_len() == 0 {
        return Err(ArgsError::NoProgramName);
    }
    name.append(".ch8");
    Ok(Config { auto_next_instruction: false, program_name: name })
}

} // verus!
