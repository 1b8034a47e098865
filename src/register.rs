use std::time::{Duration, Instant};
use vstd::prelude::*;

verus! {

/// A point in time of the monotonic clock; the engine only carries it.
#[verifier::external_type_specification]
#[verifier::external_body]
pub struct ExInstant(Instant);

/// Relies on std::time::Instant::now to read the monotonic clock; nothing is promised of it.
pub assume_specification[ Instant::now ]() -> Instant;

/// Relies on std::time::Instant::elapsed to measure the time since an instant; nothing is
/// promised of it.
pub assume_specification[ Instant::elapsed ](t: &Instant) -> Duration;

/// Relies on std::time::Duration::as_nanos to express a duration in nanoseconds; nothing is
/// promised of it.
pub assume_specification[ Duration::as_nanos ](d: &Duration) -> u128;

/// Nanoseconds between two decrements of a timer: the whole part of 1/60 second.
pub const TIMER_PERIOD_NANOS: u128 = 16_666_666;

/// The program counter after a reset: where programs are loaded.
pub const PROGRAM_START: u16 = 0x200;

/// The register file as plain values.
pub struct RegisterFile {
    pub v: Seq<u8>,
    pub pc: u16,
    pub sp: u8,
    pub i: u16,
    pub dt: u8,
    pub st: u8,
}

/// A timer after one decay step that saw `elapsed` nanoseconds since its last decrement:
/// once a period has passed it drops by one, never below zero.
pub open spec fn timer_after(value: u8, elapsed: u128) -> u8 {
    if elapsed >= TIMER_PERIOD_NANOS && value > 0 {
        (value - 1) as u8
    } else {
        value
    }
}

/// The general registers V0 to VF, the program counter, the stack pointer, the index
/// register and the two countdown timers, each with the instant of its last decrement.
pub struct Registers {
    pub v: [u8; 16],
    pub pc: u16,
    pub sp: u8,
    pub i: u16,
    pub dt: u8,
    pub st: u8,
    pub dt_instant: Instant,
    pub st_instant: Instant,
}

impl View for Registers {
    type V = RegisterFile;

    open spec fn view(&self) -> RegisterFile {
        RegisterFile { v: self.v@, pc: self.pc, sp: self.sp, i: self.i, dt: self.dt, st: self.st }
    }
}

impl Registers {
    /// All registers zero but the program counter, which points at the program start.
    pub fn new() -> (r: Self)
        ensures
            r@ == (RegisterFile {
                v: Seq::new(16, |k: int| 0u8),
                pc: PROGRAM_START,
                sp: 0,
                i: 0,
                dt: 0,
                st: 0,
            }),
    {
        let r = Registers {
            v: [0u8; 16],
            pc: PROGRAM_START,
            sp: 0,
            i: 0,
            dt: 0,
            st: 0,
            dt_instant: Instant::now(),
            st_instant: Instant::now(),
        };
        assert(r.v@ =~= Seq::new(16, |k: int| 0u8));
        r
    }

    pub fn get_elapsed_time_since_last_dt(&self) -> Duration {
        self.dt_instant.elapsed()
    }

    pub fn get_elapsed_time_since_last_st(&self) -> Duration {
        self.st_instant.elapsed()
    }

    pub fn reset_dt_time(&mut self)
        ensures
            final(self)@ == old(self)@,
    {
        self.dt_instant = Instant::now();
    }

    pub fn reset_st_time(&mut self)
        ensures
            final(self)@ == old(self)@,
    {
        self.st_instant = Instant::now();
    }

    /// One decay step of both timers, given the nanoseconds since each one's last
    /// decrement. A timer whose period has passed drops by one (stopping at zero) and
    /// restarts its period; nothing else changes.
    pub fn tick_timers(&mut self, dt_elapsed: u128, st_elapsed: u128)
        ensures
            final(self)@ == (RegisterFile {
                dt: timer_after(old(self).dt, dt_elapsed),
                st: timer_after(old(self).st, st_elapsed),
                ..old(self)@
            }),
    {
        if dt_elapsed >= TIMER_PERIOD_NANOS {
            if self.dt > 0 {
                self.dt = self.dt - 1;
            }
            self.reset_dt_time();
        }
        if st_elapsed >= TIMER_PERIOD_NANOS {
            if self.st > 0 {
                self.st = self.st - 1;
            }
            self.reset_st_time();
        }
    }
}

} // verus!
