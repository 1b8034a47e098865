use crate::instruction::Operands;
use crate::memory::{copy_range, range_result, read8_result, store16, word_of};
use crate::callback::PixelEvent;
use crate::ops::{blank_screen, first_pressed_from, pc_plus, ret_ok, step, Machine, Opcode};
use vstd::prelude::*;

verus! {

/// ADD Vx, byte leaves Vx + byte modulo 256 in Vx and moves the program counter on by
/// exactly two.
pub proof fn lemma_add_byte_wraps(m: Machine, o: Operands, keys: Seq<bool>, random: u8)
    requires
        m.regs.v.len() == 16,
        o.x < 16,
        m.regs.pc + 2 <= 0xFFFF,
    ensures
        ({
            let after = step(Opcode::AddRegByte, o, m, keys, random);
            &&& after.regs.v[o.x as int] == (m.regs.v[o.x as int] + o.kk) % 256
            &&& after.regs.pc == m.regs.pc + 2
        }),
{
}

/// ADD Vx, Vy raises VF exactly where the sum passes 255 and leaves the sum modulo 256 in
/// Vx, for every Vx other than VF itself (there the sum overwrites the flag).
pub proof fn lemma_add_regs_carry(m: Machine, o: Operands, keys: Seq<bool>, random: u8)
    requires
        m.regs.v.len() == 16,
        o.x < 15,
        o.y < 16,
    ensures
        ({
            let after = step(Opcode::AddRegReg, o, m, keys, random);
            let sum = m.regs.v[o.x as int] + m.regs.v[o.y as int];
            &&& (after.regs.v[15] == 1) == (sum > 255)
            &&& (after.regs.v[15] == 0) == (sum <= 255)
            &&& after.regs.v[o.x as int] == sum % 256
        }),
{
}

/// A CALL that finds room on the stack, followed at once by RET, resumes just after the
/// CALL with the stack pointer back where it was.
pub proof fn lemma_call_then_ret(
    m: Machine,
    call: Operands,
    back: Operands,
    keys: Seq<bool>,
    random: u8,
)
    requires
        m.regs.sp + 1 < m.stack.len(),
        m.regs.sp + 2 < 256,
    ensures
        ({
            let called = step(Opcode::CallAddr, call, m, keys, random);
            let returned = step(Opcode::Ret, back, called, keys, random);
            &&& returned.regs.pc == pc_plus(m.regs.pc, 2)
            &&& returned.regs.sp == m.regs.sp
        }),
{
    let called = step(Opcode::CallAddr, call, m, keys, random);
    let sp = m.regs.sp as int;
    assert(called.stack == store16(m.stack, sp, m.regs.pc));
    assert(called.regs.sp == sp + 2);
    lemma_word_split(m.regs.pc);
    assert(word_of(called.stack[sp], called.stack[sp + 1]) == m.regs.pc);
    assert(ret_ok(called.stack, called.regs));
}

/// A word is its high byte times 256 plus its low byte.
proof fn lemma_word_split(w: u16)
    ensures
        word_of((w / 256) as u8, (w % 256) as u8) == w,
{
}

/// CLS darkens all 2048 cells and sends exactly one clear notification.
pub proof fn lemma_cls_blanks_screen(m: Machine, o: Operands, keys: Seq<bool>, random: u8)
    ensures
        ({
            let after = step(Opcode::Cls, o, m, keys, random);
            &&& after.screen.len() == 2048
            &&& forall|k: int| 0 <= k < 2048 ==> after.screen[k] == 0
            &&& after.events == m.events.push(PixelEvent::Clear)
        }),
{
    assert(blank_screen().len() == 2048);
}

/// LD Vx, K with no key held changes nothing, so running it again and again keeps the
/// program counter where it is.
pub proof fn lemma_wait_key_idle(m: Machine, o: Operands, keys: Seq<bool>, random: u8)
    requires
        forall|k: int| 0 <= k < keys.len() ==> !keys[k],
    ensures
        step(Opcode::LdRegK, o, m, keys, random) == m,
{
    lemma_no_key_pressed(keys, 0);
}

/// LD Vx, K with key `k` held and no lower key held stores `k` in Vx and moves the program
/// counter on by two.
pub proof fn lemma_wait_key_pressed(
    m: Machine,
    o: Operands,
    keys: Seq<bool>,
    random: u8,
    k: nat,
)
    requires
        m.regs.v.len() == 16,
        o.x < 16,
        k < keys.len(),
        keys[k as int],
        forall|j: int| 0 <= j < k ==> !keys[j],
    ensures
        ({
            let after = step(Opcode::LdRegK, o, m, keys, random);
            &&& after.regs.v[o.x as int] == k as u8
            &&& after.regs.pc == pc_plus(m.regs.pc, 2)
        }),
{
    lemma_first_pressed(keys, 0, k);
}

/// With no key held from `from` on, the search from `from` finds none.
proof fn lemma_no_key_pressed(keys: Seq<bool>, from: nat)
    requires
        forall|k: int| 0 <= k < keys.len() ==> !keys[k],
    ensures
        first_pressed_from(keys, from) is None,
    decreases keys.len() - from,
{
    if from < keys.len() {
        lemma_no_key_pressed(keys, from + 1);
    }
}

/// The search from `from` finds the lowest held key at or above `from`.
proof fn lemma_first_pressed(keys: Seq<bool>, from: nat, k: nat)
    requires
        from <= k < keys.len(),
        keys[k as int],
        forall|j: int| from <= j < k ==> !keys[j],
    ensures
        first_pressed_from(keys, from) == Some(k),
    decreases k - from,
{
    if from < k {
        lemma_first_pressed(keys, from + 1, k);
    }
}

/// Copying bytes into a range that fits, then reading each address of the range back,
/// gives the bytes in order.
pub proof fn lemma_write_range_round_trip(mem: Seq<u8>, start: u16, bytes: Seq<u8>)
    requires
        start + bytes.len() <= mem.len(),
        start + bytes.len() <= 0xFFFF,
    ensures
        ({
            let end = (start + bytes.len()) as u16;
            let after = copy_range(mem, start, end, bytes);
            &&& range_result(mem.len(), start, end) is Ok
            &&& after.len() == mem.len()
            &&& forall|i: int|
                0 <= i < bytes.len() ==> #[trigger] read8_result(after, (start + i) as u16)
                    == Ok::<u8, crate::memory::MemoryError>(bytes[i])
        }),
{
}

/// A range whose start lies after its end is always refused.
pub proof fn lemma_reversed_range_refused(len: nat, start: u16, end: u16)
    requires
        start > end,
    ensures
        range_result(len, start, end) is Err,
{
}

} // verus!
