use crate::callback::Chip8Callback;
use crate::disasm::{dec, hex1, hex2, hex4, push_dec, push_hex1, push_hex2, push_hex4};
use crate::memory::Memory;
use crate::ops::{
    add_i_reg, add_reg_byte, add_reg_reg, and_reg_reg, call_addr, clean_screen, drw_reg_reg_nibble,
    jp_addr, jp_v0_addr, ld_b_reg, ld_dt_reg, ld_i_addr, ld_i_reg, ld_reg_byte, ld_reg_dt,
    ld_reg_from_i, ld_reg_k, ld_reg_reg, ld_st_reg, ld_to_i_reg, or_reg_reg, ret, rnd_reg_byte,
    se_reg_byte, se_reg_reg, shl_reg_reg, shr_reg_reg, sknp_reg, skp_reg, sne_reg_byte,
    sne_reg_reg, step, sub_reg_reg, subn_reg_reg, xor_reg_reg, Machine, Opcode,
};
use crate::register::Registers;
use vstd::prelude::*;

verus! {

/// The operand fields of an instruction word.
#[derive(Debug, Clone, Copy, PartialEq, Eq, Structural)]
pub struct Operands {
    /// The low 12 bits: an address.
    pub nnn: u16,
    /// The low 4 bits.
    pub nibble: u8,
    /// Bits 8 to 11: a register.
    pub x: u8,
    /// Bits 4 to 7: a register.
    pub y: u8,
    /// The low 8 bits: an immediate byte.
    pub kk: u8,
}

/// The operand fields of `word`.
pub open spec fn operands_of(word: u16) -> Operands {
    Operands {
        nnn: (word % 0x1000) as u16,
        nibble: (word % 16) as u8,
        x: ((word / 0x100) % 16) as u8,
        y: ((word / 16) % 16) as u8,
        kk: (word % 0x100) as u8,
    }
}

/// `pre`, the digit of register `x`, then `post`.
pub open spec fn text_x(pre: Seq<char>, x: u8, post: Seq<char>) -> Seq<char> {
    pre + hex1(x as int) + post
}

/// `pre`, the digit of register `x`, a comma, then the byte `kk` in two digits.
pub open spec fn text_xkk(pre: Seq<char>, x: u8, kk: u8) -> Seq<char> {
    pre + hex1(x as int) + ", "@ + hex2(kk as int)
}

/// `pre`, the digit of register `x`, then register `y`.
pub open spec fn text_xy(pre: Seq<char>, x: u8, y: u8) -> Seq<char> {
    pre + hex1(x as int) + ", V"@ + hex1(y as int)
}

/// `pre`, then the address `nnn` in four digits.
pub open spec fn text_addr(pre: Seq<char>, nnn: u16) -> Seq<char> {
    pre + hex4(nnn as int)
}

/// The assembly text of an instruction word, where the word has one.
pub open spec fn mnemonic(w: u16) -> Option<Seq<char>> {
    let o = operands_of(w);
    let (x, y, kk, nnn) = (o.x, o.y, o.kk, o.nnn);
    let group = w / 0x1000;
    if group == 0 {
        if w == 0x00E0 {
            Some("CLS"@)
        } else if w == 0x00EE {
            Some("RET"@)
        } else {
            Some(text_addr("SYS $"@, nnn))
        }
    } else if group == 1 {
        Some(text_addr("JP $"@, nnn))
    } else if group == 2 {
        Some(text_addr("CALL $"@, nnn))
    } else if group == 3 {
        Some(text_xkk("SE V"@, x, kk))
    } else if group == 4 {
        Some(text_xkk("SNE V"@, x, kk))
    } else if group == 5 {
        Some(text_xy("SE V"@, x, y))
    } else if group == 6 {
        Some(text_xkk("LD V"@, x, kk))
    } else if group == 7 {
        Some(text_xkk("ADD V"@, x, kk))
    } else if group == 8 {
        let low = w % 16;
        if low == 0 {
            Some(text_xy("LD V"@, x, y))
        } else if low == 1 {
            Some(text_xy("OR V"@, x, y))
        } else if low == 2 {
            Some(text_xy("AND V"@, x, y))
        } else if low == 3 {
            Some(text_xy("XOR V"@, x, y))
        } else if low == 4 {
            Some(text_xy("ADD V"@, x, y))
        } else if low == 5 {
            Some(text_xy("SUB V"@, x, y))
        } else if low == 6 {
            Some(text_x("SHR V"@, x, ""@))
        } else if low == 7 {
            Some(text_xy("SUBN V"@, x, y))
        } else if low == 0xE {
            Some(text_x("SHL V"@, x, ""@))
        } else {
            None
        }
    } else if group == 9 {
        Some(text_xy("SNE V"@, x, y))
    } else if group == 0xA {
        Some(text_addr("LD I, $"@, nnn))
    } else if group == 0xB {
        Some(text_addr("JP V0, $"@, nnn))
    } else if group == 0xC {
        Some(text_xkk("RND V"@, x, kk))
    } else if group == 0xD {
        Some(text_xy("DRW V"@, x, y) + ", "@ + dec(o.nibble as int))
    } else if group == 0xE {
        let low = w % 256;
        if low == 0x9E {
            Some(text_x("SKP V"@, x, ""@))
        } else if low == 0xA1 {
            Some(text_x("SKNP V"@, x, ""@))
        } else {
            None
        }
    } else {
        let low = w % 256;
        if low == 0x07 {
            Some(text_x("LD V"@, x, ", DT"@))
        } else if low == 0x0A {
            Some(text_x("LD V"@, x, ", K"@))
        } else if low == 0x15 {
            Some(text_x("LD DT, V"@, x, ""@))
        } else if low == 0x18 {
            Some(text_x("LD ST, V"@, x, ""@))
        } else if low == 0x1E {
            Some(text_x("ADD I, V"@, x, ""@))
        } else if low == 0x29 {
            Some(text_x("LD I, V"@, x, ""@))
        } else if low == 0x33 {
            Some(text_x("LD B, V"@, x, ""@))
        } else if low == 0x55 {
            Some(text_x("LD [I], V"@, x, ""@))
        } else if low == 0x65 {
            Some(text_x("LD V"@, x, ", [I]"@))
        } else {
            None
        }
    }
}

/// The operation an instruction word stands for: a two-level dispatch on the top nibble,
/// then on the low nibble (group 8) or the low byte (groups E and F).
pub open spec fn handler_of(w: u16) -> Opcode {
    let group = w / 0x1000;
    if group == 0 {
        if w == 0x00E0 {
            Opcode::Cls
        } else if w == 0x00EE {
            Opcode::Ret
        } else {
            Opcode::Unknown
        }
    } else if group == 1 {
        Opcode::JpAddr
    } else if group == 2 {
        Opcode::CallAddr
    } else if group == 3 {
        Opcode::SeRegByte
    } else if group == 4 {
        Opcode::SneRegByte
    } else if group == 5 {
        Opcode::SeRegReg
    } else if group == 6 {
        Opcode::LdRegByte
    } else if group == 7 {
        Opcode::AddRegByte
    } else if group == 8 {
        let low = w % 16;
        if low == 0 {
            Opcode::LdRegReg
        } else if low == 1 {
            Opcode::OrRegReg
        } else if low == 2 {
            Opcode::AndRegReg
        } else if low == 3 {
            Opcode::XorRegReg
        } else if low == 4 {
            Opcode::AddRegReg
        } else if low == 5 {
            Opcode::SubRegReg
        } else if low == 6 {
            Opcode::ShrRegReg
        } else if low == 7 {
            Opcode::SubnRegReg
        } else if low == 0xE {
            Opcode::ShlRegReg
        } else {
            Opcode::Unknown
        }
    } else if group == 9 {
        Opcode::SneRegReg
    } else if group == 0xA {
        Opcode::LdIAddr
    } else if group == 0xB {
        Opcode::JpV0Addr
    } else if group == 0xC {
        Opcode::RndRegByte
    } else if group == 0xD {
        Opcode::DrwRegRegNibble
    } else if group == 0xE {
        let low = w % 256;
        if low == 0x9E {
            Opcode::SkpReg
        } else if low == 0xA1 {
            Opcode::SknpReg
        } else {
            Opcode::Unknown
        }
    } else {
        let low = w % 256;
        if low == 0x07 {
            Opcode::LdRegDt
        } else if low == 0x0A {
            Opcode::LdRegK
        } else if low == 0x15 {
            Opcode::LdDtReg
        } else if low == 0x18 {
            Opcode::LdStReg
        } else if low == 0x1E {
            Opcode::AddIReg
        } else if low == 0x29 {
            Opcode::LdIReg
        } else if low == 0x33 {
            Opcode::LdBReg
        } else if low == 0x55 {
            Opcode::LdToIReg
        } else if low == 0x65 {
            Opcode::LdRegFromI
        } else {
            Opcode::Unknown
        }
    }
}

/// The text an instruction shows once decoded: its address in four digits, a dash, then
/// the assembly text; empty where the word has no assembly text.
pub open spec fn disassembly(w: u16, pc: u16) -> Seq<char> {
    match mnemonic(w) {
        Some(m) => hex4(pc as int) + " - "@ + m,
        None => Seq::empty(),
    }
}

fn make_x(pre: &str, x: u8, post: &str) -> (r: String)
    ensures
        r@ == text_x(pre@, x, post@),
{
    let mut s = String::from_str(pre);
    push_hex1(&mut s, x);
    s.append(post);
    s
}

fn make_xkk(pre: &str, x: u8, kk: u8) -> (r: String)
    ensures
        r@ == text_xkk(pre@, x, kk),
{
    let mut s = String::from_str(pre);
    push_hex1(&mut s, x);
    s.append(", ");
    push_hex2(&mut s, kk);
    s
}

fn make_xy(pre: &str, x: u8, y: u8) -> (r: String)
    ensures
        r@ == text_xy(pre@, x, y),
{
    let mut s = String::from_str(pre);
    push_hex1(&mut s, x);
    s.append(", V");
    push_hex1(&mut s, y);
    s
}

fn make_addr(pre: &str, nnn: u16) -> (r: String)
    ensures
        r@ == text_addr(pre@, nnn),
{
    let mut s = String::from_str(pre);
    push_hex4(&mut s, nnn);
    s
}

/// The operand fields of `word`, computed.
pub fn decode_operands(word: u16) -> (r: Operands)
    ensures
        r == operands_of(word),
{
    Operands {
        nnn: word % 0x1000,
        nibble: (word % 16) as u8,
        x: ((word / 0x100) % 16) as u8,
        y: ((word / 16) % 16) as u8,
        kk: (word % 0x100) as u8,
    }
}

/// The assembly text of an instruction word, where it has one.
pub fn mnemonic_text(w: u16) -> (r: Option<String>)
    ensures
        match r {
            Some(t) => mnemonic(w) == Some(t@),
            None => mnemonic(w) is None,
        },
{
    let o = decode_operands(w);
    let (x, y, kk, nnn) = (o.x, o.y, o.kk, o.nnn);
    let group = w / 0x1000;
    if group == 0 {
        if w == 0x00E0 {
            Some(String::from_str("CLS"))
        } else if w == 0x00EE {
            Some(String::from_str("RET"))
        } else {
            Some(make_addr("SYS $", nnn))
        }
    } else if group == 1 {
        Some(make_addr("JP $", nnn))
    } else if group == 2 {
        Some(make_addr("CALL $", nnn))
    } else if group == 3 {
        Some(make_xkk("SE V", x, kk))
    } else if group == 4 {
        Some(make_xkk("SNE V", x, kk))
    } else if group == 5 {
        Some(make_xy("SE V", x, y))
    } else if group == 6 {
        Some(make_xkk("LD V", x, kk))
    } else if group == 7 {
        Some(make_xkk("ADD V", x, kk))
    } else if group == 8 {
        let low = w % 16;
        if low == 0 {
            Some(make_xy("LD V", x, y))
        } else if low == 1 {
            Some(make_xy("OR V", x, y))
        } else if low == 2 {
            Some(make_xy("AND V", x, y))
        } else if low == 3 {
            Some(make_xy("XOR V", x, y))
        } else if low == 4 {
            Some(make_xy("ADD V", x, y))
        } else if low == 5 {
            Some(make_xy("SUB V", x, y))
        } else if low == 6 {
            Some(make_x("SHR V", x, ""))
        } else if low == 7 {
            Some(make_xy("SUBN V", x, y))
        } else if low == 0xE {
            Some(make_x("SHL V", x, ""))
        } else {
            None
        }
    } else if group == 9 {
        Some(make_xy("SNE V", x, y))
    } else if group == 0xA {
        Some(make_addr("LD I, $", nnn))
    } else if group == 0xB {
        Some(make_addr("JP V0, $", nnn))
    } else if group == 0xC {
        Some(make_xkk("RND V", x, kk))
    } else if group == 0xD {
        let mut s = make_xy("DRW V", x, y);
        s.append(", ");
        push_dec(&mut s, o.nibble);
        Some(s)
    } else if group == 0xE {
        let low = w % 256;
        if low == 0x9E {
            Some(make_x("SKP V", x, ""))
        } else if low == 0xA1 {
            Some(make_x("SKNP V", x, ""))
        } else {
            None
        }
    } else {
        let low = w % 256;
        if low == 0x07 {
            Some(make_x("LD V", x, ", DT"))
        } else if low == 0x0A {
            Some(make_x("LD V", x, ", K"))
        } else if low == 0x15 {
            Some(make_x("LD DT, V", x, ""))
        } else if low == 0x18 {
            Some(make_x("LD ST, V", x, ""))
        } else if low == 0x1E {
            Some(make_x("ADD I, V", x, ""))
        } else if low == 0x29 {
            Some(make_x("LD I, V", x, ""))
        } else if low == 0x33 {
            Some(make_x("LD B, V", x, ""))
        } else if low == 0x55 {
            Some(make_x("LD [I], V", x, ""))
        } else if low == 0x65 {
            Some(make_x("LD V", x, ", [I]"))
        } else {
            None
        }
    }
}

/// The operation an instruction word stands for.
pub fn handler_for(w: u16) -> (r: Opcode)
    ensures
        r == handler_of(w),
{
    let group = w / 0x1000;
    if group == 0 {
        if w == 0x00E0 {
            Opcode::Cls
        } else if w == 0x00EE {
            Opcode::Ret
        } else {
            Opcode::Unknown
        }
    } else if group == 1 {
        Opcode::JpAddr
    } else if group == 2 {
        Opcode::CallAddr
    } else if group == 3 {
        Opcode::SeRegByte
    } else if group == 4 {
        Opcode::SneRegByte
    } else if group == 5 {
        Opcode::SeRegReg
    } else if group == 6 {
        Opcode::LdRegByte
    } else if group == 7 {
        Opcode::AddRegByte
    } else if group == 8 {
        let low = w % 16;
        if low == 0 {
            Opcode::LdRegReg
        } else if low == 1 {
            Opcode::OrRegReg
        } else if low == 2 {
            Opcode::AndRegReg
        } else if low == 3 {
            Opcode::XorRegReg
        } else if low == 4 {
            Opcode::AddRegReg
        } else if low == 5 {
            Opcode::SubRegReg
        } else if low == 6 {
            Opcode::ShrRegReg
        } else if low == 7 {
            Opcode::SubnRegReg
        } else if low == 0xE {
            Opcode::ShlRegReg
        } else {
            Opcode::Unknown
        }
    } else if group == 9 {
        Opcode::SneRegReg
    } else if group == 0xA {
        Opcode::LdIAddr
    } else if group == 0xB {
        Opcode::JpV0Addr
    } else if group == 0xC {
        Opcode::RndRegByte
    } else if group == 0xD {
        Opcode::DrwRegRegNibble
    } else if group == 0xE {
        let low = w % 256;
        if low == 0x9E {
            Opcode::SkpReg
        } else if low == 0xA1 {
            Opcode::SknpReg
        } else {
            Opcode::Unknown
        }
    } else {
        let low = w % 256;
        if low == 0x07 {
            Opcode::LdRegDt
        } else if low == 0x0A {
            Opcode::LdRegK
        } else if low == 0x15 {
            Opcode::LdDtReg
        } else if low == 0x18 {
            Opcode::LdStReg
        } else if low == 0x1E {
            Opcode::AddIReg
        } else if low == 0x29 {
            Opcode::LdIReg
        } else if low == 0x33 {
            Opcode::LdBReg
        } else if low == 0x55 {
            Opcode::LdToIReg
        } else if low == 0x65 {
            Opcode::LdRegFromI
        } else {
            Opcode::Unknown
        }
    }
}


/// Relies on rand::thread_rng and rand::Rng::gen_range for a byte drawn from the thread's
/// generator; any byte may come.
#[verifier::external_body]
pub(crate) fn random_byte() -> u8 {
    rand::Rng::gen_range(&mut rand::thread_rng(), 0..=255u8)
}

/// One decoded instruction: its word, the address it was fetched from, its operand fields,
/// its text and the operation it stands for.
pub struct Instruction {
    disassembled: String,
    instruction: u16,
    pc: u16,
    operands: Operands,
    operation: Opcode,
}

impl Instruction {
    pub closed spec fn text(&self) -> Seq<char> {
        self.disassembled@
    }

    pub closed spec fn word(&self) -> u16 {
        self.instruction
    }

    pub closed spec fn pc(&self) -> u16 {
        self.pc
    }

    pub closed spec fn operands(&self) -> Operands {
        self.operands
    }

    pub closed spec fn handler(&self) -> Opcode {
        self.operation
    }

    /// The operand fields are those of the word.
    #[verifier::type_invariant]
    spec fn operands_match(&self) -> bool {
        self.operands == operands_of(self.instruction)
    }

    /// An instruction with the given text, standing for no operation yet.
    pub fn new(disassembled: String, instruction: u16, pc: u16) -> (r: Self)
        ensures
            r.text() == disassembled@,
            r.word() == instruction,
            r.pc() == pc,
            r.operands() == operands_of(instruction),
            r.handler() == Opcode::Unknown,
    {
        Instruction {
            disassembled,
            instruction,
            pc,
            operands: decode_operands(instruction),
            operation: Opcode::Unknown,
        }
    }

    /// Sets the text to the instruction's address in four hexadecimal digits, a dash, then
    /// `value`.
    pub fn set_disassembled(&mut self, value: String)
        ensures
            final(self).text() == hex4(old(self).pc() as int) + " - "@ + value@,
            final(self).word() == old(self).word(),
            final(self).pc() == old(self).pc(),
            final(self).operands() == old(self).operands(),
            final(self).handler() == old(self).handler(),
    {
        proof {
            use_type_invariant(&*self);
        }
        let mut s = String::new();
        push_hex4(&mut s, self.pc);
        s.append(" - ");
        s.append(value.as_str());
        self.disassembled = s;
    }

    pub fn get_disassembled(&self) -> (r: &str)
        ensures
            r@ == self.text(),
    {
        self.disassembled.as_str()
    }

    /// Binds the operation the instruction stands for.
    pub fn set_callback(&mut self, operation: Opcode)
        ensures
            final(self).handler() == operation,
            final(self).text() == old(self).text(),
            final(self).word() == old(self).word(),
            final(self).pc() == old(self).pc(),
            final(self).operands() == old(self).operands(),
    {
        proof {
            use_type_invariant(&*self);
        }
        self.operation = operation;
    }

    /// The operation the instruction stands for.
    pub fn operation(&self) -> (r: Opcode)
        ensures
            r == self.handler(),
    {
        self.operation
    }

    pub fn borrow_operands(&self) -> (r: &Operands)
        ensures
            *r == self.operands(),
    {
        &self.operands
    }

    /// Runs the instruction with `random` as the byte RND draws.
    pub fn execute_with<D>(
        &self,
        random: u8,
        ram: &mut Memory,
        stack: &mut Memory,
        reg: &mut Registers,
        keys: &[bool; 16],
        screen: &mut [u8; 2048],
        callbacks: &mut Chip8Callback<D>,
    )
        ensures
            (Machine {
                ram: final(ram)@,
                stack: final(stack)@,
                regs: final(reg)@,
                screen: final(screen)@,
                events: final(callbacks)@.1,
            }) == step(
                self.handler(),
                self.operands(),
                Machine {
                    ram: old(ram)@,
                    stack: old(stack)@,
                    regs: old(reg)@,
                    screen: old(screen)@,
                    events: old(callbacks)@.1,
                },
                keys@,
                random,
            ),
            final(callbacks)@.0 == old(callbacks)@.0,
    {
        proof {
            use_type_invariant(self);
        }
        let o = &self.operands;
        match self.operation {
            Opcode::Cls => clean_screen(reg, screen, callbacks),
            Opcode::Ret => ret(stack, reg),
            Opcode::JpAddr => jp_addr(o, reg),
            Opcode::CallAddr => call_addr(o, stack, reg),
            Opcode::SeRegByte => se_reg_byte(o, reg),
            Opcode::SneRegByte => sne_reg_byte(o, reg),
            Opcode::SeRegReg => se_reg_reg(o, reg),
            Opcode::LdRegByte => ld_reg_byte(o, reg),
            Opcode::AddRegByte => add_reg_byte(o, reg),
            Opcode::LdRegReg => ld_reg_reg(o, reg),
            Opcode::OrRegReg => or_reg_reg(o, reg),
            Opcode::AndRegReg => and_reg_reg(o, reg),
            Opcode::XorRegReg => xor_reg_reg(o, reg),
            Opcode::AddRegReg => add_reg_reg(o, reg),
            Opcode::SubRegReg => sub_reg_reg(o, reg),
            Opcode::ShrRegReg => shr_reg_reg(o, reg),
            Opcode::SubnRegReg => subn_reg_reg(o, reg),
            Opcode::ShlRegReg => shl_reg_reg(o, reg),
            Opcode::SneRegReg => sne_reg_reg(o, reg),
            Opcode::LdIAddr => ld_i_addr(o, reg),
            Opcode::JpV0Addr => jp_v0_addr(o, reg),
            Opcode::RndRegByte => rnd_reg_byte(o, reg, random),
            Opcode::DrwRegRegNibble => drw_reg_reg_nibble(o, ram, reg, screen, callbacks),
            Opcode::SkpReg => skp_reg(o, reg, keys),
            Opcode::SknpReg => sknp_reg(o, reg, keys),
            Opcode::LdRegDt => ld_reg_dt(o, reg),
            Opcode::LdRegK => ld_reg_k(o, reg, keys),
            Opcode::LdDtReg => ld_dt_reg(o, reg),
            Opcode::LdStReg => ld_st_reg(o, reg),
            Opcode::AddIReg => add_i_reg(o, reg),
            Opcode::LdIReg => ld_i_reg(o, reg),
            Opcode::LdBReg => ld_b_reg(o, ram, reg),
            Opcode::LdToIReg => ld_to_i_reg(o, ram, reg),
            Opcode::LdRegFromI => ld_reg_from_i(o, ram, reg),
            Opcode::Unknown => {},
        }
    }

    /// Runs the instruction; RND draws its byte from the random generator.
    pub fn execute<D>(
        &self,
        ram: &mut Memory,
        stack: &mut Memory,
        reg: &mut Registers,
        keys: &[bool; 16],
        screen: &mut [u8; 2048],
        callbacks: &mut Chip8Callback<D>,
    )
        ensures
            exists|random: u8|
                (Machine {
                    ram: final(ram)@,
                    stack: final(stack)@,
                    regs: final(reg)@,
                    screen: final(screen)@,
                    events: final(callbacks)@.1,
                }) == #[trigger] step(
                    self.handler(),
                    self.operands(),
                    Machine {
                        ram: old(ram)@,
                        stack: old(stack)@,
                        regs: old(reg)@,
                        screen: old(screen)@,
                        events: old(callbacks)@.1,
                    },
                    keys@,
                    random,
                ),
            final(callbacks)@.0 == old(callbacks)@.0,
    {
        let random: u8 = if self.operation == Opcode::RndRegByte {
            random_byte()
        } else {
            0
        };
        self.execute_with(random, ram, stack, reg, keys, screen, callbacks);
    }
}

/// Decodes `word`, fetched at `pc`, into an instruction with its text and operation.
pub fn decode(word: u16, pc: u16) -> (r: Instruction)
    ensures
        r.word() == word,
        r.pc() == pc,
        r.operands() == operands_of(word),
        r.handler() == handler_of(word),
        r.text() == disassembly(word, pc),
{
    let mut ins = Instruction::new(String::new(), word, pc);
    match mnemonic_text(word) {
        Some(t) => ins.set_disassembled(t),
        None => {
            assert(ins.text() =~= Seq::<char>::empty());
        },
    }
    ins.set_callback(handler_for(word));
    ins
}

} // verus!
