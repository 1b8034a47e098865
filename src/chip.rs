use crate::callback::Chip8Callback;
use crate::instruction::{
    decode, disassembly, handler_of, operands_of, random_byte, Instruction, Operands,
};
use crate::memory::{copy_range, range_result, read16_result, Memory, MemoryError};
use crate::ops::{blank_screen, step, Machine, Opcode};
use crate::register::{timer_after, RegisterFile, Registers, PROGRAM_START};
use std::time::{Duration, Instant};
use vstd::prelude::*;

verus! {

/// Bytes of program memory.
pub const RAM_SIZE: u16 = 0x1000;

/// Bytes of the call stack: sixteen frames of two bytes.
pub const STACK_SIZE: u16 = 0x20;

/// Bytes of the built-in font: sixteen glyphs of five bytes.
pub const FONT_SIZE: u16 = 80;

/// The built-in font: the glyphs of the hexadecimal digits 0 to F, five rows each.
pub open spec fn font_set() -> Seq<u8> {
    seq![
        0xF0u8, 0x90u8, 0x90u8, 0x90u8, 0xF0u8, 0x20u8, 0x60u8, 0x20u8, 0x20u8, 0x70u8,
        0xF0u8, 0x10u8, 0xF0u8, 0x80u8, 0xF0u8, 0xF0u8, 0x10u8, 0xF0u8, 0x10u8, 0xF0u8,
        0x90u8, 0x90u8, 0xF0u8, 0x10u8, 0x10u8, 0xF0u8, 0x80u8, 0xF0u8, 0x10u8, 0xF0u8,
        0xF0u8, 0x80u8, 0xF0u8, 0x90u8, 0xF0u8, 0xF0u8, 0x10u8, 0x20u8, 0x40u8, 0x40u8,
        0xF0u8, 0x90u8, 0xF0u8, 0x90u8, 0xF0u8, 0xF0u8, 0x90u8, 0xF0u8, 0x10u8, 0xF0u8,
        0xF0u8, 0x90u8, 0xF0u8, 0x90u8, 0x90u8, 0xE0u8, 0x90u8, 0xE0u8, 0x90u8, 0xE0u8,
        0xF0u8, 0x80u8, 0x80u8, 0x80u8, 0xF0u8, 0xE0u8, 0x90u8, 0x90u8, 0x90u8, 0xE0u8,
        0xF0u8, 0x80u8, 0xF0u8, 0x80u8, 0xF0u8, 0xF0u8, 0x80u8, 0xF0u8, 0x80u8, 0x80u8,
    ]
}

/// Copies the font to the start of `ram`.
fn add_hex_sprites(ram: &mut Memory) -> (r: Result<(), MemoryError>)
    ensures
        r == range_result(old(ram)@.len(), 0, FONT_SIZE),
        final(ram)@ == if r is Ok {
            copy_range(old(ram)@, 0, FONT_SIZE, font_set())
        } else {
            old(ram)@
        },
{
    let sprites: [u8; 80] = [
        0xF0, 0x90, 0x90, 0x90, 0xF0, 0x20, 0x60, 0x20, 0x20, 0x70,
        0xF0, 0x10, 0xF0, 0x80, 0xF0, 0xF0, 0x10, 0xF0, 0x10, 0xF0,
        0x90, 0x90, 0xF0, 0x10, 0x10, 0xF0, 0x80, 0xF0, 0x10, 0xF0,
        0xF0, 0x80, 0xF0, 0x90, 0xF0, 0xF0, 0x10, 0x20, 0x40, 0x40,
        0xF0, 0x90, 0xF0, 0x90, 0xF0, 0xF0, 0x90, 0xF0, 0x10, 0xF0,
        0xF0, 0x90, 0xF0, 0x90, 0x90, 0xE0, 0x90, 0xE0, 0x90, 0xE0,
        0xF0, 0x80, 0x80, 0x80, 0xF0, 0xE0, 0x90, 0x90, 0x90, 0xE0,
        0xF0, 0x80, 0xF0, 0x80, 0xF0, 0xF0, 0x80, 0xF0, 0x80, 0x80,
    ];
    assert(sprites@ =~= font_set());
    ram.write8_range(0, FONT_SIZE, &sprites)
}

/// Nanoseconds between two instructions when the machine runs on its own: 1/500 second.
pub const INSTRUCTION_PERIOD_NANOS: u128 = 2_000_000;

/// The operation that runs in a tick: the one just decoded from `word` where a fetch was
/// pending, else the one decoded before.
pub open spec fn tick_op(decodes: bool, word: u16, before: Opcode) -> Opcode {
    if decodes {
        handler_of(word)
    } else {
        before
    }
}

/// The operand fields that go with `tick_op`.
pub open spec fn tick_operands(decodes: bool, word: u16, before: Operands) -> Operands {
    if decodes {
        operands_of(word)
    } else {
        before
    }
}

/// What one host tick did.
pub struct TickReport {
    /// The text of the instruction decoded during the tick, if one was.
    pub disassembly: Option<String>,
    /// Whether the decoded instruction ran during the tick.
    pub executed: bool,
}

/// Why a register could not be written.
#[derive(Debug, Clone, Copy, PartialEq, Eq, Structural)]
pub enum RegisterError {
    /// There is no general register with this index.
    InvalidRegister { index: u8 },
}

/// Program memory right after loading `program`: the font at the start, the program from
/// the program start on, zeros elsewhere.
pub open spec fn loaded_ram(program: Seq<u8>) -> Seq<u8> {
    Seq::new(
        RAM_SIZE as nat,
        |k: int|
            if k < FONT_SIZE {
                font_set()[k]
            } else if PROGRAM_START <= k < PROGRAM_START + program.len() {
                program[k - PROGRAM_START]
            } else {
                0u8
            },
    )
}

/// Whether a program of `len` bytes fits between the program start and the end of memory.
pub open spec fn program_fits(len: nat) -> bool {
    len <= RAM_SIZE - PROGRAM_START
}

/// The machine after one decay step of its timers.
pub open spec fn with_timers(m: Machine, dt_elapsed: u128, st_elapsed: u128) -> Machine {
    Machine {
        regs: RegisterFile {
            dt: timer_after(m.regs.dt, dt_elapsed),
            st: timer_after(m.regs.st, st_elapsed),
            ..m.regs
        },
        ..m
    }
}

/// Whether `after` is `before` with the instruction `op` run, drawing some random byte for
/// RND, and then one decay step of the timers, whatever time had passed.
#[verifier::opaque]
pub open spec fn ran_one(
    before: Machine,
    after: Machine,
    op: Opcode,
    operands: Operands,
    keys: Seq<bool>,
) -> bool {
    exists|random: u8, dt_elapsed: u128, st_elapsed: u128|
        after == #[trigger] with_timers(
            step(op, operands, before, keys, random),
            dt_elapsed,
            st_elapsed,
        )
}

/// A CHIP-8 virtual machine: program memory, call stack, registers, framebuffer, keypad,
/// the pause and fetch flags, the decoded instruction waiting to run, and the notifications
/// for the host.
pub struct Chip8<D> {
    ram: Memory,
    stack: Memory,
    registers: Registers,
    screen: [u8; 2048],
    keys: [bool; 16],
    paused: bool,
    callbacks: Chip8Callback<D>,
    need_to_fetch: bool,
    next_instruction: Instruction,
    execution_instant: Instant,
}

impl<D> Chip8<D> {
    /// Memory, stack, registers, framebuffer and notifications as plain values.
    pub closed spec fn machine(&self) -> Machine {
        Machine {
            ram: self.ram@,
            stack: self.stack@,
            regs: self.registers@,
            screen: self.screen@,
            events: self.callbacks@.1,
        }
    }

    pub closed spec fn keys(&self) -> Seq<bool> {
        self.keys@
    }

    pub closed spec fn paused(&self) -> bool {
        self.paused
    }

    pub closed spec fn fetch_pending(&self) -> bool {
        self.need_to_fetch
    }

    pub closed spec fn next(&self) -> Instruction {
        self.next_instruction
    }

    pub closed spec fn callback_data(&self) -> Option<D> {
        self.callbacks@.0
    }

    /// A machine with `program` loaded after the font, all registers reset, a dark screen,
    /// no key held, paused and waiting to fetch. Refused where the program does not fit.
    pub fn build(program: &[u8]) -> (r: Result<Self, MemoryError>)
        ensures
            r is Ok <==> program_fits(program@.len()),
            r is Err ==> r == Err::<Self, MemoryError>(
                MemoryError::OutOfBounds { offset: RAM_SIZE as usize, len: RAM_SIZE as usize },
            ),
            match r {
                Ok(c) => {
                    &&& c.machine() == (Machine {
                        ram: loaded_ram(program@),
                        stack: Seq::new(STACK_SIZE as nat, |k: int| 0u8),
                        regs: RegisterFile {
                            v: Seq::new(16, |k: int| 0u8),
                            pc: PROGRAM_START,
                            sp: 0,
                            i: 0,
                            dt: 0,
                            st: 0,
                        },
                        screen: blank_screen(),
                        events: Seq::empty(),
                    })
                    &&& c.keys() == Seq::new(16, |k: int| false)
                    &&& c.paused()
                    &&& c.fetch_pending()
                    &&& c.callback_data() is None
                    &&& c.next().text() == Seq::<char>::empty()
                    &&& c.next().handler() == Opcode::Unknown
                },
                Err(_) => true,
            },
    {
        if program.len() > (RAM_SIZE - PROGRAM_START) as usize {
            return Err(MemoryError::OutOfBounds { offset: RAM_SIZE as usize, len: RAM_SIZE as usize });
        }
        let mut ram = Memory::new(RAM_SIZE);
        let fonts = add_hex_sprites(&mut ram);
        let end = PROGRAM_START + program.len() as u16;
        let loaded = ram.write8_range(PROGRAM_START, end, program);
        assert(fonts is Ok && loaded is Ok);
        assert(ram@ =~= loaded_ram(program@));
        let screen = [0u8; 2048];
        let keys = [false; 16];
        assert(screen@ =~= blank_screen());
        assert(keys@ =~= Seq::new(16, |k: int| false));
        let chip = Chip8 {
            ram,
            stack: Memory::new(STACK_SIZE),
            registers: Registers::new(),
            screen,
            keys,
            paused: true,
            callbacks: Chip8Callback::new(),
            need_to_fetch: true,
            next_instruction: Instruction::new(String::new(), 0, 0),
            execution_instant: Instant::now(),
        };
        Ok(chip)
    }

    /// The time since the last instruction ran.
    pub fn get_elapsed_time_since_last_instruction(&self) -> Duration {
        self.execution_instant.elapsed()
    }

    /// Whether the next step is to fetch and decode a fresh instruction.
    pub fn need_to_fetch(&self) -> (r: bool)
        ensures
            r == self.fetch_pending(),
    {
        self.need_to_fetch
    }

    pub fn set_need_to_fetch(&mut self, value: bool)
        ensures
            final(self).fetch_pending() == value,
            final(self).machine() == old(self).machine(),
            final(self).keys() == old(self).keys(),
            final(self).paused() == old(self).paused(),
            final(self).next() == old(self).next(),
            final(self).callback_data() == old(self).callback_data(),
    {
        self.need_to_fetch = value;
    }

    /// The big-endian word at the program counter.
    pub fn fetch_next_instruction(&self) -> (r: Result<u16, MemoryError>)
        ensures
            r == read16_result(self.machine().ram, self.machine().regs.pc),
    {
        self.ram.read16(self.registers.pc)
    }

    /// Decodes `instruction` as the word at the program counter and keeps it as the next
    /// instruction to run; returns its text.
    pub fn decode_instruction(&mut self, instruction: u16) -> (r: Result<&str, String>)
        ensures
            final(self).next().word() == instruction,
            final(self).next().pc() == old(self).machine().regs.pc,
            final(self).next().operands() == operands_of(instruction),
            final(self).next().handler() == handler_of(instruction),
            final(self).next().text() == disassembly(instruction, old(self).machine().regs.pc),
            final(self).machine() == old(self).machine(),
            final(self).keys() == old(self).keys(),
            final(self).paused() == old(self).paused(),
            final(self).fetch_pending() == old(self).fetch_pending(),
            final(self).callback_data() == old(self).callback_data(),
            match r {
                Ok(t) => t@ == disassembly(instruction, old(self).machine().regs.pc),
                Err(_) => false,
            },
    {
        self.next_instruction = decode(instruction, self.registers.pc);
        Ok(self.next_instruction.get_disassembled())
    }

    /// Runs the decoded instruction with `random` as the byte RND draws; the timers are left
    /// alone.
    pub fn execute_instruction_with(&mut self, random: u8)
        ensures
            final(self).machine() == step(
                old(self).next().handler(),
                old(self).next().operands(),
                old(self).machine(),
                old(self).keys(),
                random,
            ),
            final(self).keys() == old(self).keys(),
            final(self).paused() == old(self).paused(),
            final(self).fetch_pending() == old(self).fetch_pending(),
            final(self).next() == old(self).next(),
            final(self).callback_data() == old(self).callback_data(),
    {
        self.next_instruction.execute_with(
            random,
            &mut self.ram,
            &mut self.stack,
            &mut self.registers,
            &self.keys,
            &mut self.screen,
            &mut self.callbacks,
        );
    }

    /// Runs the decoded instruction, then lets each timer that has waited a full period
    /// since its last decrement drop by one.
    pub fn execute_instruction(&mut self)
        ensures
            ran_one(
                old(self).machine(),
                final(self).machine(),
                old(self).next().handler(),
                old(self).next().operands(),
                old(self).keys(),
            ),
            final(self).keys() == old(self).keys(),
            final(self).paused() == old(self).paused(),
            final(self).fetch_pending() == old(self).fetch_pending(),
            final(self).next() == old(self).next(),
            final(self).callback_data() == old(self).callback_data(),
    {
        let random: u8 = if self.next_instruction.operation() == Opcode::RndRegByte {
            random_byte()
        } else {
            0
        };
        self.execute_instruction_with(random);
        let dt_elapsed = self.registers.get_elapsed_time_since_last_dt().as_nanos();
        let st_elapsed = self.registers.get_elapsed_time_since_last_st().as_nanos();
        self.registers.tick_timers(dt_elapsed, st_elapsed);
        self.execution_instant = Instant::now();
        reveal(ran_one);
        assert(self.machine() == with_timers(
            step(
                old(self).next().handler(),
                old(self).next().operands(),
                old(self).machine(),
                old(self).keys(),
                random,
            ),
            dt_elapsed,
            st_elapsed,
        ));
    }

    /// One tick of the host loop. Where a fetch is pending, the word at the program counter
    /// is decoded (a failed fetch ends the tick with its error and changes nothing). Then,
    /// unless paused, the decoded instruction runs once `since_last_nanos` reaches the
    /// instruction period, and a fetch becomes pending again, so that no decoded instruction
    /// runs twice.
    pub fn tick(&mut self, since_last_nanos: u128) -> (r: Result<TickReport, MemoryError>)
        ensures
            ({
                let pc = old(self).machine().regs.pc;
                let fetched = read16_result(old(self).machine().ram, pc);
                let decodes = old(self).fetch_pending();
                let runs = !old(self).paused() && since_last_nanos >= INSTRUCTION_PERIOD_NANOS;
                let op = tick_op(decodes, fetched->Ok_0, old(self).next().handler());
                let operands = tick_operands(decodes, fetched->Ok_0, old(self).next().operands());
                if decodes && fetched is Err {
                    &&& r == Err::<TickReport, MemoryError>(fetched->Err_0)
                    &&& final(self).machine() == old(self).machine()
                    &&& final(self).fetch_pending() == old(self).fetch_pending()
                    &&& final(self).next() == old(self).next()
                } else {
                    &&& r is Ok
                    &&& match r {
                        Ok(t) => {
                            &&& (t.disassembly is Some) == decodes
                            &&& decodes ==> t.disassembly->0@ == disassembly(fetched->Ok_0, pc)
                            &&& t.executed == runs
                        },
                        Err(_) => true,
                    }
                    &&& decodes ==> final(self).next().word() == fetched->Ok_0
                        && final(self).next().pc() == pc
                        && final(self).next().text() == disassembly(fetched->Ok_0, pc)
                    &&& final(self).next().handler() == op
                    &&& final(self).next().operands() == operands
                    &&& !decodes ==> final(self).next() == old(self).next()
                    &&& final(self).fetch_pending() == runs
                    &&& runs ==> ran_one(
                        old(self).machine(),
                        final(self).machine(),
                        op,
                        operands,
                        old(self).keys(),
                    )
                    &&& !runs ==> final(self).machine() == old(self).machine()
                }
            }),
            final(self).keys() == old(self).keys(),
            final(self).paused() == old(self).paused(),
            final(self).callback_data() == old(self).callback_data(),
    {
        let mut disassembly: Option<String> = None;
        if self.need_to_fetch {
            let word = match self.fetch_next_instruction() {
                Ok(w) => w,
                Err(e) => {
                    return Err(e);
                },
            };
            self.next_instruction = decode(word, self.registers.pc);
            disassembly = Some(String::from_str(self.next_instruction.get_disassembled()));
            self.need_to_fetch = false;
        }
        let mut executed = false;
        if !self.paused && since_last_nanos >= INSTRUCTION_PERIOD_NANOS {
            self.execute_instruction();
            self.need_to_fetch = true;
            executed = true;
        }
        Ok(TickReport { disassembly, executed })
    }

    pub fn is_paused(&self) -> (r: bool)
        ensures
            r == self.paused(),
    {
        self.paused
    }

    pub fn set_pause(&mut self, value: bool)
        ensures
            final(self).paused() == value,
            final(self).machine() == old(self).machine(),
            final(self).keys() == old(self).keys(),
            final(self).fetch_pending() == old(self).fetch_pending(),
            final(self).next() == old(self).next(),
            final(self).callback_data() == old(self).callback_data(),
    {
        self.paused = value;
    }

    /// Writes general register `register_number`; there are sixteen.
    pub fn set_register_value(&mut self, register_number: u8, value: u8) -> (r: Result<
        (),
        RegisterError,
    >)
        ensures
            r is Ok <==> register_number < 16,
            r is Err ==> r == Err::<(), RegisterError>(
                RegisterError::InvalidRegister { index: register_number },
            ),
            final(self).machine() == if r is Ok {
                Machine {
                    regs: RegisterFile {
                        v: old(self).machine().regs.v.update(register_number as int, value),
                        ..old(self).machine().regs
                    },
                    ..old(self).machine()
                }
            } else {
                old(self).machine()
            },
            final(self).keys() == old(self).keys(),
            final(self).paused() == old(self).paused(),
            final(self).fetch_pending() == old(self).fetch_pending(),
            final(self).next() == old(self).next(),
            final(self).callback_data() == old(self).callback_data(),
    {
        if register_number > 15 {
            return Err(RegisterError::InvalidRegister { index: register_number });
        }
        self.registers.v[register_number as usize] = value;
        assert(self.registers.v@ =~= old(self).registers.v@.update(register_number as int, value));
        Ok(())
    }

    /// Marks key `index` held or released; an index past the keypad is ignored.
    pub fn set_key_pressed(&mut self, index: u8, value: bool)
        ensures
            final(self).keys() == if index < 16 {
                old(self).keys().update(index as int, value)
            } else {
                old(self).keys()
            },
            final(self).machine() == old(self).machine(),
            final(self).paused() == old(self).paused(),
            final(self).fetch_pending() == old(self).fetch_pending(),
            final(self).next() == old(self).next(),
            final(self).callback_data() == old(self).callback_data(),
    {
        if index > 15 {
            return;
        }
        self.keys[index as usize] = value;
        assert(self.keys@ =~= old(self).keys@.update(index as int, value));
    }

    pub fn borrow_mut_callbacks(&mut self) -> (r: &mut Chip8Callback<D>)
        ensures
            r@ == (old(self).callback_data(), old(self).machine().events),
            (final(self).callback_data(), final(self).machine().events) == final(r)@,
            final(self).machine().ram == old(self).machine().ram,
            final(self).machine().stack == old(self).machine().stack,
            final(self).machine().regs == old(self).machine().regs,
            final(self).machine().screen == old(self).machine().screen,
            final(self).keys() == old(self).keys(),
            final(self).paused() == old(self).paused(),
            final(self).fetch_pending() == old(self).fetch_pending(),
            final(self).next() == old(self).next(),
    {
        &mut self.callbacks
    }

    pub fn borrow_next_instruction(&self) -> (r: &Instruction)
        ensures
            *r == self.next(),
    {
        &self.next_instruction
    }

    pub fn borrow_registers(&self) -> (r: &Registers)
        ensures
            r@ == self.machine().regs,
    {
        &self.registers
    }

    pub fn borrow_ram(&self) -> (r: &Memory)
        ensures
            r@ == self.machine().ram,
    {
        &self.ram
    }

    /// The framebuffer, row after row, one byte per pixel.
    pub fn borrow_screen(&self) -> (r: &[u8; 2048])
        ensures
            r@ == self.machine().screen,
    {
        &self.screen
    }
}

} // verus!
