use crate::callback::{Chip8Callback, PixelEvent};
use crate::instruction::Operands;
use crate::memory::{store16, word_of, Memory, MemoryError};
use crate::register::{RegisterFile, Registers};
use vstd::prelude::*;

verus! {

/// Columns of the framebuffer.
pub const SCREEN_WIDTH: u16 = 64;

/// Rows of the framebuffer.
pub const SCREEN_HEIGHT: u16 = 32;

/// Cells of the framebuffer, row after row.
pub const SCREEN_SIZE: usize = 2048;

/// Bytes of one glyph of the built-in hexadecimal font.
pub const GLYPH_SIZE: u16 = 5;

/// The program counter `n` bytes further on, wrapping at 16 bits.
pub open spec fn pc_plus(pc: u16, n: int) -> u16 {
    ((pc + n) % 0x10000) as u16
}

/// The register file with the program counter moved `n` bytes on.
pub open spec fn advance(r: RegisterFile, n: int) -> RegisterFile {
    RegisterFile { pc: pc_plus(r.pc, n), ..r }
}

/// The register file with general register `k` set to `val`.
pub open spec fn with_v(r: RegisterFile, k: int, val: u8) -> RegisterFile {
    RegisterFile { v: r.v.update(k, val), ..r }
}

/// A conditional skip: the next instruction is passed over when `cond` holds.
pub open spec fn skip_if(r: RegisterFile, cond: bool) -> RegisterFile {
    advance(r, if cond { 4 } else { 2 })
}

/// Vx takes `val`, then the program counter moves to the next instruction.
pub open spec fn load_x(r: RegisterFile, o: Operands, val: u8) -> RegisterFile {
    advance(with_v(r, o.x as int, val), 2)
}

/// VF takes `flag`, then Vx takes `val` (so Vx wins where x is F), then the program counter
/// moves to the next instruction.
pub open spec fn flag_then_x(r: RegisterFile, o: Operands, flag: u8, val: u8) -> RegisterFile {
    advance(with_v(with_v(r, 15, flag), o.x as int, val), 2)
}

/// Whether key `k` is held down; a key index past the keypad is never held.
pub open spec fn key_down(keys: Seq<bool>, k: int) -> bool {
    0 <= k < keys.len() && keys[k]
}

/// The lowest held key at index `k` or above.
pub open spec fn first_pressed_from(keys: Seq<bool>, k: nat) -> Option<nat>
    decreases keys.len() - k,
{
    if k >= keys.len() {
        None
    } else if keys[k as int] {
        Some(k)
    } else {
        first_pressed_from(keys, k + 1)
    }
}

/// Whether an address lies in a buffer of `len` bytes and in the 16-bit address space.
pub open spec fn addr_ok(len: nat, a: int) -> bool {
    0 <= a <= 0xFFFF && a < len
}

/// How many of `n` consecutive addresses from `start` can be reached before the first one
/// that cannot.
pub open spec fn reachable_count(len: nat, start: int, n: int) -> int {
    let limit = if len < 0x10000 { len as int } else { 0x10000 };
    if limit - start >= n {
        n
    } else if limit - start <= 0 {
        0
    } else {
        limit - start
    }
}

/// The three decimal digits of a byte, most significant first.
pub open spec fn bcd(v: u8) -> Seq<u8> {
    seq![(v / 100) as u8, ((v / 10) % 10) as u8, (v % 10) as u8]
}

// ---------------------------------------------------------------- register instructions

pub open spec fn jp_addr_spec(r: RegisterFile, o: Operands) -> RegisterFile {
    RegisterFile { pc: o.nnn, ..r }
}

pub open spec fn se_reg_byte_spec(r: RegisterFile, o: Operands) -> RegisterFile {
    skip_if(r, r.v[o.x as int] == o.kk)
}

pub open spec fn sne_reg_byte_spec(r: RegisterFile, o: Operands) -> RegisterFile {
    skip_if(r, r.v[o.x as int] != o.kk)
}

pub open spec fn se_reg_reg_spec(r: RegisterFile, o: Operands) -> RegisterFile {
    skip_if(r, r.v[o.x as int] == r.v[o.y as int])
}

pub open spec fn sne_reg_reg_spec(r: RegisterFile, o: Operands) -> RegisterFile {
    skip_if(r, r.v[o.x as int] != r.v[o.y as int])
}

pub open spec fn ld_reg_byte_spec(r: RegisterFile, o: Operands) -> RegisterFile {
    load_x(r, o, o.kk)
}

pub open spec fn add_reg_byte_spec(r: RegisterFile, o: Operands) -> RegisterFile {
    load_x(r, o, ((r.v[o.x as int] + o.kk) % 256) as u8)
}

pub open spec fn ld_reg_reg_spec(r: RegisterFile, o: Operands) -> RegisterFile {
    load_x(r, o, r.v[o.y as int])
}

pub open spec fn or_reg_reg_spec(r: RegisterFile, o: Operands) -> RegisterFile {
    load_x(r, o, r.v[o.x as int] | r.v[o.y as int])
}

pub open spec fn and_reg_reg_spec(r: RegisterFile, o: Operands) -> RegisterFile {
    load_x(r, o, r.v[o.x as int] & r.v[o.y as int])
}

pub open spec fn xor_reg_reg_spec(r: RegisterFile, o: Operands) -> RegisterFile {
    load_x(r, o, r.v[o.x as int] ^ r.v[o.y as int])
}

/// VF is the carry out of the 8-bit sum; Vx keeps the sum modulo 256.
pub open spec fn add_reg_reg_spec(r: RegisterFile, o: Operands) -> RegisterFile {
    let sum = r.v[o.x as int] + r.v[o.y as int];
    flag_then_x(r, o, if sum > 255 { 1 } else { 0 }, (sum % 256) as u8)
}

/// VF is 1 where Vx > Vy; Vx keeps Vx - Vy modulo 256.
pub open spec fn sub_reg_reg_spec(r: RegisterFile, o: Operands) -> RegisterFile {
    let (a, b) = (r.v[o.x as int], r.v[o.y as int]);
    flag_then_x(r, o, if a > b { 1 } else { 0 }, ((a - b + 256) % 256) as u8)
}

/// VF is 1 where Vy > Vx; Vx keeps Vy - Vx modulo 256.
pub open spec fn subn_reg_reg_spec(r: RegisterFile, o: Operands) -> RegisterFile {
    let (a, b) = (r.v[o.x as int], r.v[o.y as int]);
    flag_then_x(r, o, if b > a { 1 } else { 0 }, ((b - a + 256) % 256) as u8)
}

/// VF is the bit shifted out at the bottom; Vx is halved.
pub open spec fn shr_reg_reg_spec(r: RegisterFile, o: Operands) -> RegisterFile {
    let a = r.v[o.x as int];
    flag_then_x(r, o, (a % 2) as u8, (a / 2) as u8)
}

/// VF is the bit shifted out at the top; Vx is doubled modulo 256.
pub open spec fn shl_reg_reg_spec(r: RegisterFile, o: Operands) -> RegisterFile {
    let a = r.v[o.x as int];
    flag_then_x(r, o, if a >= 128 { 1 } else { 0 }, ((a * 2) % 256) as u8)
}

pub open spec fn ld_i_addr_spec(r: RegisterFile, o: Operands) -> RegisterFile {
    advance(RegisterFile { i: o.nnn, ..r }, 2)
}

pub open spec fn jp_v0_addr_spec(r: RegisterFile, o: Operands) -> RegisterFile {
    RegisterFile { pc: pc_plus(o.nnn, r.v[0] as int), ..r }
}

/// Vx takes the random byte masked by kk.
pub open spec fn rnd_reg_byte_spec(r: RegisterFile, o: Operands, random: u8) -> RegisterFile {
    load_x(r, o, random & o.kk)
}

pub open spec fn skp_reg_spec(r: RegisterFile, o: Operands, keys: Seq<bool>) -> RegisterFile {
    skip_if(r, key_down(keys, r.v[o.x as int] as int))
}

pub open spec fn sknp_reg_spec(r: RegisterFile, o: Operands, keys: Seq<bool>) -> RegisterFile {
    skip_if(r, !key_down(keys, r.v[o.x as int] as int))
}

pub open spec fn ld_reg_dt_spec(r: RegisterFile, o: Operands) -> RegisterFile {
    load_x(r, o, r.dt)
}

/// Waits for a key: with one held, Vx takes the lowest held index and the program moves on;
/// with none, nothing changes, so the same instruction runs again.
pub open spec fn ld_reg_k_spec(r: RegisterFile, o: Operands, keys: Seq<bool>) -> RegisterFile {
    match first_pressed_from(keys, 0) {
        Some(k) => load_x(r, o, k as u8),
        None => r,
    }
}

pub open spec fn ld_dt_reg_spec(r: RegisterFile, o: Operands) -> RegisterFile {
    advance(RegisterFile { dt: r.v[o.x as int], ..r }, 2)
}

pub open spec fn ld_st_reg_spec(r: RegisterFile, o: Operands) -> RegisterFile {
    advance(RegisterFile { st: r.v[o.x as int], ..r }, 2)
}

pub open spec fn add_i_reg_spec(r: RegisterFile, o: Operands) -> RegisterFile {
    advance(RegisterFile { i: ((r.i + r.v[o.x as int]) % 0x10000) as u16, ..r }, 2)
}

/// I points at the font glyph of the digit in Vx.
pub open spec fn ld_i_reg_spec(r: RegisterFile, o: Operands) -> RegisterFile {
    advance(RegisterFile { i: (r.v[o.x as int] * GLYPH_SIZE) as u16, ..r }, 2)
}

/// Guards every register instruction: the operands name registers of the file.
pub open spec fn regs_ok(r: RegisterFile, o: Operands) -> bool {
    r.v.len() == 16 && o.x < 16 && o.y < 16
}

pub(crate) fn jp_addr(o: &Operands, reg: &mut Registers)
    ensures
        final(reg)@ == jp_addr_spec(old(reg)@, *o),
{
    reg.pc = o.nnn;
}

fn next(pc: u16, n: u16) -> (r: u16)
    requires
        n <= 4,
    ensures
        r == pc_plus(pc, n as int),
{
    ((pc as u32 + n as u32) % 0x10000) as u16
}

pub(crate) fn se_reg_byte(o: &Operands, reg: &mut Registers)
    requires
        o.x < 16,
    ensures
        final(reg)@ == se_reg_byte_spec(old(reg)@, *o),
{
    let step: u16 = if reg.v[o.x as usize] == o.kk { 4 } else { 2 };
    reg.pc = next(reg.pc, step);
}

pub(crate) fn sne_reg_byte(o: &Operands, reg: &mut Registers)
    requires
        o.x < 16,
    ensures
        final(reg)@ == sne_reg_byte_spec(old(reg)@, *o),
{
    let step: u16 = if reg.v[o.x as usize] != o.kk { 4 } else { 2 };
    reg.pc = next(reg.pc, step);
}

pub(crate) fn se_reg_reg(o: &Operands, reg: &mut Registers)
    requires
        o.x < 16,
        o.y < 16,
    ensures
        final(reg)@ == se_reg_reg_spec(old(reg)@, *o),
{
    let step: u16 = if reg.v[o.x as usize] == reg.v[o.y as usize] { 4 } else { 2 };
    reg.pc = next(reg.pc, step);
}

pub(crate) fn sne_reg_reg(o: &Operands, reg: &mut Registers)
    requires
        o.x < 16,
        o.y < 16,
    ensures
        final(reg)@ == sne_reg_reg_spec(old(reg)@, *o),
{
    let step: u16 = if reg.v[o.x as usize] != reg.v[o.y as usize] { 4 } else { 2 };
    reg.pc = next(reg.pc, step);
}

/// Vx takes `val` and the program counter moves to the next instruction.
fn set_x(o: &Operands, reg: &mut Registers, val: u8)
    requires
        o.x < 16,
    ensures
        final(reg)@ == load_x(old(reg)@, *o, val),
{
    reg.v[o.x as usize] = val;
    reg.pc = next(reg.pc, 2);
    assert(reg.v@ =~= old(reg).v@.update(o.x as int, val));
}

/// VF takes `flag`, then Vx takes `val`, and the program counter moves on.
fn set_flag_then_x(o: &Operands, reg: &mut Registers, flag: u8, val: u8)
    requires
        o.x < 16,
    ensures
        final(reg)@ == flag_then_x(old(reg)@, *o, flag, val),
{
    reg.v[15] = flag;
    reg.v[o.x as usize] = val;
    reg.pc = next(reg.pc, 2);
    assert(reg.v@ =~= old(reg).v@.update(15, flag).update(o.x as int, val));
}

pub(crate) fn ld_reg_byte(o: &Operands, reg: &mut Registers)
    requires
        o.x < 16,
    ensures
        final(reg)@ == ld_reg_byte_spec(old(reg)@, *o),
{
    set_x(o, reg, o.kk);
}

pub(crate) fn add_reg_byte(o: &Operands, reg: &mut Registers)
    requires
        o.x < 16,
    ensures
        final(reg)@ == add_reg_byte_spec(old(reg)@, *o),
{
    let val = ((reg.v[o.x as usize] as u16 + o.kk as u16) % 256) as u8;
    set_x(o, reg, val);
}

pub(crate) fn ld_reg_reg(o: &Operands, reg: &mut Registers)
    requires
        o.x < 16,
        o.y < 16,
    ensures
        final(reg)@ == ld_reg_reg_spec(old(reg)@, *o),
{
    let val = reg.v[o.y as usize];
    set_x(o, reg, val);
}

pub(crate) fn or_reg_reg(o: &Operands, reg: &mut Registers)
    requires
        o.x < 16,
        o.y < 16,
    ensures
        final(reg)@ == or_reg_reg_spec(old(reg)@, *o),
{
    let val = reg.v[o.x as usize] | reg.v[o.y as usize];
    set_x(o, reg, val);
}

pub(crate) fn and_reg_reg(o: &Operands, reg: &mut Registers)
    requires
        o.x < 16,
        o.y < 16,
    ensures
        final(reg)@ == and_reg_reg_spec(old(reg)@, *o),
{
    let val = reg.v[o.x as usize] & reg.v[o.y as usize];
    set_x(o, reg, val);
}

pub(crate) fn xor_reg_reg(o: &Operands, reg: &mut Registers)
    requires
        o.x < 16,
        o.y < 16,
    ensures
        final(reg)@ == xor_reg_reg_spec(old(reg)@, *o),
{
    let val = reg.v[o.x as usize] ^ reg.v[o.y as usize];
    set_x(o, reg, val);
}

pub(crate) fn add_reg_reg(o: &Operands, reg: &mut Registers)
    requires
        o.x < 16,
        o.y < 16,
    ensures
        final(reg)@ == add_reg_reg_spec(old(reg)@, *o),
{
    let sum = reg.v[o.x as usize] as u16 + reg.v[o.y as usize] as u16;
    let flag: u8 = if sum > 255 { 1 } else { 0 };
    set_flag_then_x(o, reg, flag, (sum % 256) as u8);
}

pub(crate) fn sub_reg_reg(o: &Operands, reg: &mut Registers)
    requires
        o.x < 16,
        o.y < 16,
    ensures
        final(reg)@ == sub_reg_reg_spec(old(reg)@, *o),
{
    let a = reg.v[o.x as usize];
    let b = reg.v[o.y as usize];
    let flag: u8 = if a > b { 1 } else { 0 };
    let val = ((a as u16 + 256 - b as u16) % 256) as u8;
    set_flag_then_x(o, reg, flag, val);
}

pub(crate) fn subn_reg_reg(o: &Operands, reg: &mut Registers)
    requires
        o.x < 16,
        o.y < 16,
    ensures
        final(reg)@ == subn_reg_reg_spec(old(reg)@, *o),
{
    let a = reg.v[o.x as usize];
    let b = reg.v[o.y as usize];
    let flag: u8 = if b > a { 1 } else { 0 };
    let val = ((b as u16 + 256 - a as u16) % 256) as u8;
    set_flag_then_x(o, reg, flag, val);
}

pub(crate) fn shr_reg_reg(o: &Operands, reg: &mut Registers)
    requires
        o.x < 16,
    ensures
        final(reg)@ == shr_reg_reg_spec(old(reg)@, *o),
{
    let a = reg.v[o.x as usize];
    set_flag_then_x(o, reg, a % 2, a / 2);
}

pub(crate) fn shl_reg_reg(o: &Operands, reg: &mut Registers)
    requires
        o.x < 16,
    ensures
        final(reg)@ == shl_reg_reg_spec(old(reg)@, *o),
{
    let a = reg.v[o.x as usize];
    let flag: u8 = if a >= 128 { 1 } else { 0 };
    set_flag_then_x(o, reg, flag, ((a as u16 * 2) % 256) as u8);
}

pub(crate) fn ld_i_addr(o: &Operands, reg: &mut Registers)
    ensures
        final(reg)@ == ld_i_addr_spec(old(reg)@, *o),
{
    reg.i = o.nnn;
    reg.pc = next(reg.pc, 2);
}

pub(crate) fn jp_v0_addr(o: &Operands, reg: &mut Registers)
    ensures
        final(reg)@ == jp_v0_addr_spec(old(reg)@, *o),
{
    reg.pc = ((o.nnn as u32 + reg.v[0] as u32) % 0x10000) as u16;
}

pub(crate) fn rnd_reg_byte(o: &Operands, reg: &mut Registers, random: u8)
    requires
        o.x < 16,
    ensures
        final(reg)@ == rnd_reg_byte_spec(old(reg)@, *o, random),
{
    set_x(o, reg, random & o.kk);
}

/// Whether key `k` is held down.
fn is_key_down(keys: &[bool; 16], k: u8) -> (r: bool)
    ensures
        r == key_down(keys@, k as int),
{
    (k as usize) < 16 && keys[k as usize]
}

pub(crate) fn skp_reg(o: &Operands, reg: &mut Registers, keys: &[bool; 16])
    requires
        o.x < 16,
    ensures
        final(reg)@ == skp_reg_spec(old(reg)@, *o, keys@),
{
    let step: u16 = if is_key_down(keys, reg.v[o.x as usize]) { 4 } else { 2 };
    reg.pc = next(reg.pc, step);
}

pub(crate) fn sknp_reg(o: &Operands, reg: &mut Registers, keys: &[bool; 16])
    requires
        o.x < 16,
    ensures
        final(reg)@ == sknp_reg_spec(old(reg)@, *o, keys@),
{
    let step: u16 = if !is_key_down(keys, reg.v[o.x as usize]) { 4 } else { 2 };
    reg.pc = next(reg.pc, step);
}

pub(crate) fn ld_reg_dt(o: &Operands, reg: &mut Registers)
    requires
        o.x < 16,
    ensures
        final(reg)@ == ld_reg_dt_spec(old(reg)@, *o),
{
    let val = reg.dt;
    set_x(o, reg, val);
}

pub(crate) fn ld_reg_k(o: &Operands, reg: &mut Registers, keys: &[bool; 16])
    requires
        o.x < 16,
    ensures
        final(reg)@ == ld_reg_k_spec(old(reg)@, *o, keys@),
{
    let mut k: usize = 0;
    while k < 16
        invariant
            k <= 16,
            o.x < 16,
            keys@.len() == 16,
            reg@ == old(reg)@,
            first_pressed_from(keys@, 0) == first_pressed_from(keys@, k as nat),
        decreases 16 - k,
    {
        if keys[k] {
            set_x(o, reg, k as u8);
            return;
        }
        k = k + 1;
    }
    assert(first_pressed_from(keys@, 16) is None);
}

pub(crate) fn ld_dt_reg(o: &Operands, reg: &mut Registers)
    requires
        o.x < 16,
    ensures
        final(reg)@ == ld_dt_reg_spec(old(reg)@, *o),
{
    reg.dt = reg.v[o.x as usize];
    reg.pc = next(reg.pc, 2);
}

pub(crate) fn ld_st_reg(o: &Operands, reg: &mut Registers)
    requires
        o.x < 16,
    ensures
        final(reg)@ == ld_st_reg_spec(old(reg)@, *o),
{
    reg.st = reg.v[o.x as usize];
    reg.pc = next(reg.pc, 2);
}

pub(crate) fn add_i_reg(o: &Operands, reg: &mut Registers)
    requires
        o.x < 16,
    ensures
        final(reg)@ == add_i_reg_spec(old(reg)@, *o),
{
    reg.i = ((reg.i as u32 + reg.v[o.x as usize] as u32) % 0x10000) as u16;
    reg.pc = next(reg.pc, 2);
}

pub(crate) fn ld_i_reg(o: &Operands, reg: &mut Registers)
    requires
        o.x < 16,
    ensures
        final(reg)@ == ld_i_reg_spec(old(reg)@, *o),
{
    reg.i = reg.v[o.x as usize] as u16 * GLYPH_SIZE;
    reg.pc = next(reg.pc, 2);
}

// ---------------------------------------------------------------- stack instructions

/// Whether CALL has room to push the return address.
pub open spec fn call_ok(stack: Seq<u8>, r: RegisterFile) -> bool {
    r.sp + 1 < stack.len()
}

/// The stack after CALL: the current program counter pushed at SP.
pub open spec fn call_stack_spec(stack: Seq<u8>, r: RegisterFile) -> Seq<u8> {
    if call_ok(stack, r) {
        store16(stack, r.sp as int, r.pc)
    } else {
        stack
    }
}

/// The registers after CALL: SP moved past the pushed address and a jump to nnn. Where the
/// stack is full nothing changes.
pub open spec fn call_regs_spec(stack: Seq<u8>, r: RegisterFile, o: Operands) -> RegisterFile {
    if call_ok(stack, r) {
        RegisterFile { sp: ((r.sp + 2) % 256) as u8, pc: o.nnn, ..r }
    } else {
        r
    }
}

/// Whether RET finds a return address below SP.
pub open spec fn ret_ok(stack: Seq<u8>, r: RegisterFile) -> bool {
    r.sp >= 2 && r.sp - 1 < stack.len()
}

/// The registers after RET: SP back by one frame and the program counter just past the
/// CALL that pushed the address. Where the stack is empty nothing changes.
pub open spec fn ret_regs_spec(stack: Seq<u8>, r: RegisterFile) -> RegisterFile {
    if ret_ok(stack, r) {
        RegisterFile {
            sp: (r.sp - 2) as u8,
            pc: pc_plus(word_of(stack[r.sp - 2], stack[r.sp - 1]), 2),
            ..r
        }
    } else {
        r
    }
}

pub(crate) fn call_addr(o: &Operands, stack: &mut Memory, reg: &mut Registers)
    ensures
        final(stack)@ == call_stack_spec(old(stack)@, old(reg)@),
        final(reg)@ == call_regs_spec(old(stack)@, old(reg)@, *o),
{
    if stack.write16(reg.sp as u16, reg.pc).is_err() {
        return;
    }
    reg.sp = ((reg.sp as u16 + 2) % 256) as u8;
    reg.pc = o.nnn;
}

pub(crate) fn ret(stack: &Memory, reg: &mut Registers)
    ensures
        final(reg)@ == ret_regs_spec(stack@, old(reg)@),
{
    if reg.sp < 2 {
        return;
    }
    match stack.read16((reg.sp - 2) as u16) {
        Ok(addr) => {
            reg.sp = reg.sp - 2;
            reg.pc = next(addr, 2);
        },
        Err(_) => {},
    }
}

// ---------------------------------------------------------------- memory instructions

/// The memory after LD B, Vx: the decimal digits of Vx at I, I+1 and I+2, where all three
/// addresses exist.
pub open spec fn ld_b_ram_spec(ram: Seq<u8>, r: RegisterFile, o: Operands) -> Seq<u8> {
    let d = bcd(r.v[o.x as int]);
    if addr_ok(ram.len(), r.i + 2) {
        ram.update(r.i as int, d[0]).update(r.i + 1, d[1]).update(r.i + 2, d[2])
    } else {
        ram
    }
}

pub open spec fn ld_b_regs_spec(ram: Seq<u8>, r: RegisterFile) -> RegisterFile {
    if addr_ok(ram.len(), r.i + 2) {
        advance(r, 2)
    } else {
        r
    }
}

pub(crate) fn ld_b_reg(o: &Operands, ram: &mut Memory, reg: &mut Registers)
    requires
        o.x < 16,
    ensures
        final(ram)@ == ld_b_ram_spec(old(ram)@, old(reg)@, *o),
        final(reg)@ == ld_b_regs_spec(old(ram)@, old(reg)@),
{
    let value = reg.v[o.x as usize];
    let top: u32 = reg.i as u32 + 2;
    if top > 0xFFFF {
        return;
    }
    if ram.write8(top as u16, value % 10).is_err() {
        return;
    }
    if ram.write8((top - 1) as u16, (value / 10) % 10).is_err() {
        return;
    }
    if ram.write8(reg.i, value / 100).is_err() {
        return;
    }
    assert(ram@ =~= ld_b_ram_spec(old(ram)@, old(reg)@, *o));
    reg.pc = next(reg.pc, 2);
}

/// How many registers LD [I], Vx and LD Vx, [I] move: V0 to Vx, up to the first address
/// that does not exist.
pub open spec fn moved_count(len: nat, r: RegisterFile, o: Operands) -> int {
    reachable_count(len, r.i as int, o.x + 1)
}

/// The memory after LD [I], Vx: V0, V1, ... stored from I on, as far as addresses exist.
pub open spec fn ld_to_i_ram_spec(ram: Seq<u8>, r: RegisterFile, o: Operands) -> Seq<u8> {
    let n = moved_count(ram.len(), r, o);
    Seq::new(ram.len(), |k: int| if r.i <= k < r.i + n { r.v[k - r.i] } else { ram[k] })
}

/// The registers after LD Vx, [I]: V0, V1, ... loaded from I on, as far as addresses exist.
pub open spec fn ld_from_i_v_spec(ram: Seq<u8>, r: RegisterFile, o: Operands) -> Seq<u8> {
    let n = moved_count(ram.len(), r, o);
    Seq::new(16, |k: int| if k < n { ram[r.i + k] } else { r.v[k] })
}

/// Either transfer moves on to the next instruction only where every register was moved.
pub open spec fn transfer_regs_spec(ram: Seq<u8>, r: RegisterFile, o: Operands) -> RegisterFile {
    if moved_count(ram.len(), r, o) == o.x + 1 {
        advance(r, 2)
    } else {
        r
    }
}

pub(crate) fn ld_to_i_reg(o: &Operands, ram: &mut Memory, reg: &mut Registers)
    requires
        o.x < 16,
    ensures
        final(ram)@ == ld_to_i_ram_spec(old(ram)@, old(reg)@, *o),
        final(reg)@ == transfer_regs_spec(old(ram)@, old(reg)@, *o),
{
    let ghost before = ram@;
    let ghost n = moved_count(before.len(), reg@, *o);
    let mut index: u8 = 0;
    while index <= o.x
        invariant
            o.x < 16,
            index <= o.x + 1,
            reg@ == old(reg)@,
            before == old(ram)@,
            n == moved_count(before.len(), reg@, *o),
            index <= n,
            ram@ == Seq::new(
                before.len(),
                |k: int| if reg.i <= k < reg.i + index { reg.v@[k - reg.i] } else { before[k] },
            ),
        decreases o.x + 1 - index,
    {
        let addr: u32 = reg.i as u32 + index as u32;
        if addr > 0xFFFF {
            assert(ram@ =~= ld_to_i_ram_spec(before, reg@, *o));
            return;
        }
        if ram.write8(addr as u16, reg.v[index as usize]).is_err() {
            assert(ram@ =~= ld_to_i_ram_spec(before, reg@, *o));
            return;
        }
        index = index + 1;
        assert(ram@ =~= Seq::new(
            before.len(),
            |k: int| if reg.i <= k < reg.i + index { reg.v@[k - reg.i] } else { before[k] },
        ));
    }
    assert(ram@ =~= ld_to_i_ram_spec(before, reg@, *o));
    reg.pc = next(reg.pc, 2);
}

pub(crate) fn ld_reg_from_i(o: &Operands, ram: &Memory, reg: &mut Registers)
    requires
        o.x < 16,
    ensures
        final(reg)@ == (RegisterFile {
            v: ld_from_i_v_spec(ram@, old(reg)@, *o),
            ..transfer_regs_spec(ram@, old(reg)@, *o)
        }),
{
    let ghost n = moved_count(ram@.len(), old(reg)@, *o);
    let mut index: u8 = 0;
    while index <= o.x
        invariant
            o.x < 16,
            index <= o.x + 1,
            reg@ == (RegisterFile { v: reg@.v, ..old(reg)@ }),
            n == moved_count(ram@.len(), old(reg)@, *o),
            index <= n,
            reg.v@ == Seq::new(16, |k: int| if k < index { ram@[reg.i + k] } else { old(reg).v@[k] }),
        decreases o.x + 1 - index,
    {
        let addr: u32 = reg.i as u32 + index as u32;
        if addr > 0xFFFF {
            assert(reg.v@ =~= ld_from_i_v_spec(ram@, old(reg)@, *o));
            return;
        }
        match ram.read8(addr as u16) {
            Ok(b) => {
                reg.v[index as usize] = b;
            },
            Err(_) => {
                assert(reg.v@ =~= ld_from_i_v_spec(ram@, old(reg)@, *o));
                return;
            },
        }
        index = index + 1;
        assert(reg.v@ =~= Seq::new(16, |k: int| if k < index { ram@[reg.i + k] } else { old(reg).v@[k] }));
    }
    assert(reg.v@ =~= ld_from_i_v_spec(ram@, old(reg)@, *o));
    reg.pc = next(reg.pc, 2);
}

// ---------------------------------------------------------------- screen instructions

/// The framebuffer with every cell dark.
pub open spec fn blank_screen() -> Seq<u8> {
    Seq::new(SCREEN_SIZE as nat, |k: int| 0u8)
}

pub(crate) fn clean_screen<D>(
    reg: &mut Registers,
    screen: &mut [u8; 2048],
    callbacks: &mut Chip8Callback<D>,
)
    ensures
        final(reg)@ == advance(old(reg)@, 2),
        final(screen)@ == blank_screen(),
        final(callbacks)@ == (old(callbacks)@.0, old(callbacks)@.1.push(PixelEvent::Clear)),
{
    callbacks.notify(PixelEvent::Clear);
    let mut k: usize = 0;
    while k < SCREEN_SIZE
        invariant
            k <= SCREEN_SIZE,
            forall|j: int| 0 <= j < k ==> screen@[j] == 0u8,
        decreases SCREEN_SIZE - k,
    {
        screen[k] = 0;
        k = k + 1;
    }
    assert(screen@ =~= blank_screen());
    reg.pc = next(reg.pc, 2);
}

/// What a sprite draw works on: the framebuffer, the collision flag and the notifications.
pub struct Canvas {
    pub screen: Seq<u8>,
    pub vf: u8,
    pub events: Seq<PixelEvent>,
}

/// Bit `col` of a sprite row, counted from the most significant bit.
pub open spec fn sprite_bit(sprite: u8, col: int) -> u8 {
    (sprite >> ((7 - col) as u8)) & 1u8
}

/// XORs bit `col` of a sprite row onto the cell it covers in screen row `yy`, wrapping past
/// the right edge. Clearing a lit cell raises the collision flag; a cell that changes is
/// reported as lit or dark.
pub open spec fn draw_pixel(c: Canvas, x0: u8, yy: int, sprite: u8, col: int) -> Canvas {
    let xx = (x0 + col) % (SCREEN_WIDTH as int);
    let idx = yy * SCREEN_WIDTH + xx;
    let cur = c.screen[idx];
    let bit = sprite_bit(sprite, col);
    let now = cur ^ bit;
    Canvas {
        screen: c.screen.update(idx, now),
        vf: if bit & cur != 0 { 1 } else { c.vf },
        events: if bit != 0 {
            c.events.push(
                if now != 0 {
                    PixelEvent::SetPixel { x: xx as u8, y: yy as u8 }
                } else {
                    PixelEvent::UnsetPixel { x: xx as u8, y: yy as u8 }
                },
            )
        } else {
            c.events
        },
    }
}

/// The first `cols` pixels of one sprite row, left to right.
pub open spec fn draw_row(c: Canvas, x0: u8, yy: int, sprite: u8, cols: nat) -> Canvas
    decreases cols,
{
    if cols == 0 {
        c
    } else {
        draw_pixel(draw_row(c, x0, yy, sprite, (cols - 1) as nat), x0, yy, sprite, cols - 1)
    }
}

/// The first `rows` rows of a sprite read from `i` on, top to bottom, each row wrapping past
/// the bottom edge; the flag says whether every row could be read. Drawing stops at the
/// first row whose address does not exist.
pub open spec fn draw_rows(c: Canvas, ram: Seq<u8>, i: u16, x0: u8, y0: u8, rows: nat) -> (
    Canvas,
    bool,
)
    decreases rows,
{
    if rows == 0 {
        (c, true)
    } else {
        let (c1, ok) = draw_rows(c, ram, i, x0, y0, (rows - 1) as nat);
        let a = i + rows - 1;
        if ok && addr_ok(ram.len(), a) {
            (draw_row(c1, x0, (y0 + rows - 1) % (SCREEN_HEIGHT as int), ram[a], 8), true)
        } else {
            (c1, false)
        }
    }
}

/// DRW Vx, Vy, n: VF is cleared, then the n-row sprite at I is drawn at (Vx, Vy). VF ends
/// as the collision flag. The program moves on where every row was drawn, and also where
/// the operands are out of range, which draws nothing.
pub open spec fn drw_spec(
    ram: Seq<u8>,
    r: RegisterFile,
    screen: Seq<u8>,
    events: Seq<PixelEvent>,
    o: Operands,
) -> (RegisterFile, Canvas) {
    let r0 = with_v(r, 15, 0);
    let c0 = Canvas { screen, vf: 0, events };
    if o.x > 15 || o.y > 15 || o.nibble > 15 {
        (advance(r0, 2), c0)
    } else {
        let (c, ok) = draw_rows(
            c0,
            ram,
            r.i,
            r0.v[o.x as int],
            r0.v[o.y as int],
            o.nibble as nat,
        );
        let r1 = with_v(r, 15, c.vf);
        (
            if ok {
                advance(r1, 2)
            } else {
                r1
            },
            c,
        )
    }
}

/// The two register files differ at most in VF.
pub open spec fn same_but_vf(a: RegisterFile, b: RegisterFile) -> bool {
    &&& a.pc == b.pc
    &&& a.sp == b.sp
    &&& a.i == b.i
    &&& a.dt == b.dt
    &&& a.st == b.st
    &&& a.v.len() == b.v.len()
    &&& forall|k: int| 0 <= k < a.v.len() && k != 15 ==> a.v[k] == b.v[k]
}

/// Once a row cannot be read, further rows change nothing.
proof fn lemma_draw_rows_stop(
    c: Canvas,
    ram: Seq<u8>,
    i: u16,
    x0: u8,
    y0: u8,
    k: nat,
    m: nat,
)
    requires
        k <= m,
        !draw_rows(c, ram, i, x0, y0, k).1,
    ensures
        draw_rows(c, ram, i, x0, y0, m) == draw_rows(c, ram, i, x0, y0, k),
    decreases m,
{
    if m > k {
        lemma_draw_rows_stop(c, ram, i, x0, y0, k, (m - 1) as nat);
    }
}

/// Draws the eight pixels of one sprite row onto screen row `yy`, starting from the
/// collision flag `vf`, and returns the flag.
fn draw_sprite_row<D>(
    screen: &mut [u8; 2048],
    callbacks: &mut Chip8Callback<D>,
    x0: u8,
    yy: u16,
    sprite: u8,
    vf: u8,
) -> (r: u8)
    requires
        yy < SCREEN_HEIGHT,
    ensures
        draw_row(
            Canvas { screen: old(screen)@, vf, events: old(callbacks)@.1 },
            x0,
            yy as int,
            sprite,
            8,
        ) == (Canvas { screen: final(screen)@, vf: r, events: final(callbacks)@.1 }),
        final(callbacks)@.0 == old(callbacks)@.0,
{
    let ghost c_row = Canvas { screen: old(screen)@, vf, events: old(callbacks)@.1 };
    let mut flag = vf;
    let mut col: u8 = 0;
    while col < 8
        invariant
            col <= 8,
            yy < 32,
            c_row == (Canvas { screen: old(screen)@, vf, events: old(callbacks)@.1 }),
            draw_row(c_row, x0, yy as int, sprite, col as nat) == (Canvas {
                screen: screen@,
                vf: flag,
                events: callbacks@.1,
            }),
            callbacks@.0 == old(callbacks)@.0,
        decreases 8 - col,
    {
        let xx: u16 = (x0 as u16 + col as u16) % SCREEN_WIDTH;
        let idx: usize = yy as usize * 64 + xx as usize;
        let cur = screen[idx];
        let bit: u8 = (sprite >> (7 - col)) & 1;
        if bit & cur != 0 {
            flag = 1;
        }
        let now = cur ^ bit;
        let ghost before = screen@;
        screen[idx] = now;
        assert(screen@ =~= before.update(idx as int, now));
        if bit != 0 {
            if now != 0 {
                callbacks.notify(PixelEvent::SetPixel { x: xx as u8, y: yy as u8 });
            } else {
                callbacks.notify(PixelEvent::UnsetPixel { x: xx as u8, y: yy as u8 });
            }
        }
        col = col + 1;
    }
    flag
}

pub(crate) fn drw_reg_reg_nibble<D>(
    o: &Operands,
    ram: &Memory,
    reg: &mut Registers,
    screen: &mut [u8; 2048],
    callbacks: &mut Chip8Callback<D>,
)
    ensures
        ({
            let (r, c) = drw_spec(ram@, old(reg)@, old(screen)@, old(callbacks)@.1, *o);
            &&& final(reg)@ == r
            &&& final(screen)@ == c.screen
            &&& final(callbacks)@ == (old(callbacks)@.0, c.events)
        }),
{
    reg.v[15] = 0;
    if o.x > 15 || o.y > 15 || o.nibble > 15 {
        reg.pc = next(reg.pc, 2);
        return;
    }
    let x0 = reg.v[o.x as usize];
    let y0 = reg.v[o.y as usize];
    let ghost r0 = reg@;
    let ghost c0 = Canvas { screen: old(screen)@, vf: 0, events: old(callbacks)@.1 };
    let ghost data = old(callbacks)@.0;
    let mut row: u8 = 0;
    while row < o.nibble
        invariant
            o.nibble <= 15,
            o.x < 16,
            o.y < 16,
            row <= o.nibble,
            r0 == with_v(old(reg)@, 15, 0),
            x0 == r0.v[o.x as int],
            y0 == r0.v[o.y as int],
            same_but_vf(reg@, r0),
            c0 == (Canvas { screen: old(screen)@, vf: 0, events: old(callbacks)@.1 }),
            draw_rows(c0, ram@, r0.i, x0, y0, row as nat).1,
            draw_rows(c0, ram@, r0.i, x0, y0, row as nat).0 == (Canvas {
                screen: screen@,
                vf: reg.v[15],
                events: callbacks@.1,
            }),
            callbacks@.0 == data,
            data == old(callbacks)@.0,
        decreases o.nibble - row,
    {
        let addr: u32 = reg.i as u32 + row as u32;
        let read = if addr > 0xFFFF {
            Err(MemoryError::OutOfBounds { offset: addr as usize, len: ram.len() })
        } else {
            ram.read8(addr as u16)
        };
        match read {
            Ok(sprite) => {
                let yy: u16 = (y0 as u16 + row as u16) % SCREEN_HEIGHT;
                let vf = draw_sprite_row(screen, callbacks, x0, yy, sprite, reg.v[15]);
                reg.v[15] = vf;
                row = row + 1;
            },
            Err(_) => {
                proof {
                    lemma_draw_rows_stop(
                        c0,
                        ram@,
                        r0.i,
                        x0,
                        y0,
                        (row + 1) as nat,
                        o.nibble as nat,
                    );
                }
                assert(reg.v@ =~= old(reg).v@.update(15, reg.v[15]));
                return;
            },
        }
    }
    assert(reg.v@ =~= old(reg).v@.update(15, reg.v[15]));
    reg.pc = next(reg.pc, 2);
}

// ---------------------------------------------------------------- one whole step

/// The operation an instruction word stands for.
#[derive(Debug, Clone, Copy, PartialEq, Eq, Structural)]
pub enum Opcode {
    /// CLS: clear the screen.
    Cls,
    /// RET: return from a subroutine.
    Ret,
    /// JP addr.
    JpAddr,
    /// CALL addr.
    CallAddr,
    /// SE Vx, byte.
    SeRegByte,
    /// SNE Vx, byte.
    SneRegByte,
    /// SE Vx, Vy.
    SeRegReg,
    /// LD Vx, byte.
    LdRegByte,
    /// ADD Vx, byte.
    AddRegByte,
    /// LD Vx, Vy.
    LdRegReg,
    /// OR Vx, Vy.
    OrRegReg,
    /// AND Vx, Vy.
    AndRegReg,
    /// XOR Vx, Vy.
    XorRegReg,
    /// ADD Vx, Vy.
    AddRegReg,
    /// SUB Vx, Vy.
    SubRegReg,
    /// SHR Vx.
    ShrRegReg,
    /// SUBN Vx, Vy.
    SubnRegReg,
    /// SHL Vx.
    ShlRegReg,
    /// SNE Vx, Vy.
    SneRegReg,
    /// LD I, addr.
    LdIAddr,
    /// JP V0, addr.
    JpV0Addr,
    /// RND Vx, byte.
    RndRegByte,
    /// DRW Vx, Vy, nibble.
    DrwRegRegNibble,
    /// SKP Vx.
    SkpReg,
    /// SKNP Vx.
    SknpReg,
    /// LD Vx, DT.
    LdRegDt,
    /// LD Vx, K: wait for a key.
    LdRegK,
    /// LD DT, Vx.
    LdDtReg,
    /// LD ST, Vx.
    LdStReg,
    /// ADD I, Vx.
    AddIReg,
    /// LD I, Vx: the font glyph of a digit.
    LdIReg,
    /// LD B, Vx: decimal digits.
    LdBReg,
    /// LD [I], Vx: store registers.
    LdToIReg,
    /// LD Vx, [I]: load registers.
    LdRegFromI,
    /// A legacy system call or a reserved encoding: nothing happens.
    Unknown,
}

/// Everything an instruction can change, as plain values.
pub struct Machine {
    pub ram: Seq<u8>,
    pub stack: Seq<u8>,
    pub regs: RegisterFile,
    pub screen: Seq<u8>,
    pub events: Seq<PixelEvent>,
}

/// The machine after one instruction `op` with operands `o`, given the keypad and, for RND,
/// the random byte drawn.
pub open spec fn step(op: Opcode, o: Operands, m: Machine, keys: Seq<bool>, random: u8) -> Machine {
    let r = m.regs;
    match op {
        Opcode::Cls => Machine {
            regs: advance(r, 2),
            screen: blank_screen(),
            events: m.events.push(PixelEvent::Clear),
            ..m
        },
        Opcode::Ret => Machine { regs: ret_regs_spec(m.stack, r), ..m },
        Opcode::JpAddr => Machine { regs: jp_addr_spec(r, o), ..m },
        Opcode::CallAddr => Machine {
            stack: call_stack_spec(m.stack, r),
            regs: call_regs_spec(m.stack, r, o),
            ..m
        },
        Opcode::SeRegByte => Machine { regs: se_reg_byte_spec(r, o), ..m },
        Opcode::SneRegByte => Machine { regs: sne_reg_byte_spec(r, o), ..m },
        Opcode::SeRegReg => Machine { regs: se_reg_reg_spec(r, o), ..m },
        Opcode::LdRegByte => Machine { regs: ld_reg_byte_spec(r, o), ..m },
        Opcode::AddRegByte => Machine { regs: add_reg_byte_spec(r, o), ..m },
        Opcode::LdRegReg => Machine { regs: ld_reg_reg_spec(r, o), ..m },
        Opcode::OrRegReg => Machine { regs: or_reg_reg_spec(r, o), ..m },
        Opcode::AndRegReg => Machine { regs: and_reg_reg_spec(r, o), ..m },
        Opcode::XorRegReg => Machine { regs: xor_reg_reg_spec(r, o), ..m },
        Opcode::AddRegReg => Machine { regs: add_reg_reg_spec(r, o), ..m },
        Opcode::SubRegReg => Machine { regs: sub_reg_reg_spec(r, o), ..m },
        Opcode::ShrRegReg => Machine { regs: shr_reg_reg_spec(r, o), ..m },
        Opcode::SubnRegReg => Machine { regs: subn_reg_reg_spec(r, o), ..m },
        Opcode::ShlRegReg => Machine { regs: shl_reg_reg_spec(r, o), ..m },
        Opcode::SneRegReg => Machine { regs: sne_reg_reg_spec(r, o), ..m },
        Opcode::LdIAddr => Machine { regs: ld_i_addr_spec(r, o), ..m },
        Opcode::JpV0Addr => Machine { regs: jp_v0_addr_spec(r, o), ..m },
        Opcode::RndRegByte => Machine { regs: rnd_reg_byte_spec(r, o, random), ..m },
        Opcode::DrwRegRegNibble => {
            let (r1, c) = drw_spec(m.ram, r, m.screen, m.events, o);
            Machine { regs: r1, screen: c.screen, events: c.events, ..m }
        },
        Opcode::SkpReg => Machine { regs: skp_reg_spec(r, o, keys), ..m },
        Opcode::SknpReg => Machine { regs: sknp_reg_spec(r, o, keys), ..m },
        Opcode::LdRegDt => Machine { regs: ld_reg_dt_spec(r, o), ..m },
        Opcode::LdRegK => Machine { regs: ld_reg_k_spec(r, o, keys), ..m },
        Opcode::LdDtReg => Machine { regs: ld_dt_reg_spec(r, o), ..m },
        Opcode::LdStReg => Machine { regs: ld_st_reg_spec(r, o), ..m },
        Opcode::AddIReg => Machine { regs: add_i_reg_spec(r, o), ..m },
        Opcode::LdIReg => Machine { regs: ld_i_reg_spec(r, o), ..m },
        Opcode::LdBReg => Machine {
            ram: ld_b_ram_spec(m.ram, r, o),
            regs: ld_b_regs_spec(m.ram, r),
            ..m
        },
        Opcode::LdToIReg => Machine {
            ram: ld_to_i_ram_spec(m.ram, r, o),
            regs: transfer_regs_spec(m.ram, r, o),
            ..m
        },
        Opcode::LdRegFromI => Machine {
            regs: RegisterFile { v: ld_from_i_v_spec(m.ram, r, o), ..transfer_regs_spec(m.ram, r, o) },
            ..m
        },
        Opcode::Unknown => m,
    }
}

} // verus!
