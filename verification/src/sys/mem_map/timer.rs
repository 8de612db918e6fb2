//! The free-running timer: a 64-bit counter that ticks once per retired
//! instruction and a 64-bit compare register; the pending predicate is
//! `time >= timecmp`. Both are accessed as little-endian 32-bit halves.
use vstd::prelude::*;

verus! {

#[derive(Debug)]
pub struct Timer {
    pub time: u64,
    pub timecmp: u64,
}

/// A 64-bit register with one 32-bit half replaced: offset 0 is the low
/// word, offset 4 the high word.
pub open spec fn set_half(cur: u64, addr: u64, val: u32) -> u64
    recommends
        addr == 0 || addr == 4,
{
    if addr == 0 {
        ((cur / 0x1_0000_0000) * 0x1_0000_0000 + val) as u64
    } else {
        (cur % 0x1_0000_0000 + val * 0x1_0000_0000) as u64
    }
}

/// The 32-bit half of a 64-bit register: offset 0 is the low word, offset 4
/// the high word.
pub open spec fn get_half(cur: u64, addr: u64) -> u32
    recommends
        addr == 0 || addr == 4,
{
    if addr == 0 {
        (cur % 0x1_0000_0000) as u32
    } else {
        (cur / 0x1_0000_0000) as u32
    }
}

impl Timer {
    pub fn new() -> (r: Timer)
        ensures
            r.time == 0,
            r.timecmp == u64::MAX,
    {
        Timer { time: 0, timecmp: u64::MAX }
    }

    /// The timer interrupt condition.
    pub fn is_interrupt_set(&self) -> (r: bool)
        ensures
            r == (self.time >= self.timecmp),
    {
        self.time >= self.timecmp
    }

    pub fn read_time(&self, addr: u64) -> (r: u32)
        requires
            addr == 0 || addr == 4,
        ensures
            r == get_half(self.time, addr),
    {
        if addr == 0 {
            (self.time % 0x1_0000_0000) as u32
        } else {
            (self.time / 0x1_0000_0000) as u32
        }
    }

    pub fn write_time(&mut self, addr: u64, val: u32)
        requires
            addr == 0 || addr == 4,
        ensures
            final(self).time == set_half(old(self).time, addr, val),
            final(self).timecmp == old(self).timecmp,
    {
        if addr == 0 {
            self.time = (self.time / 0x1_0000_0000) * 0x1_0000_0000 + val as u64;
        } else {
            self.time = self.time % 0x1_0000_0000 + val as u64 * 0x1_0000_0000;
        }
    }

    pub fn read_timecmp(&self, addr: u64) -> (r: u32)
        requires
            addr == 0 || addr == 4,
        ensures
            r == get_half(self.timecmp, addr),
    {
        if addr == 0 {
            (self.timecmp % 0x1_0000_0000) as u32
        } else {
            (self.timecmp / 0x1_0000_0000) as u32
        }
    }

    pub fn write_timecmp(&mut self, addr: u64, val: u32)
        requires
            addr == 0 || addr == 4,
        ensures
            final(self).timecmp == set_half(old(self).timecmp, addr, val),
            final(self).time == old(self).time,
    {
        if addr == 0 {
            self.timecmp = (self.timecmp / 0x1_0000_0000) * 0x1_0000_0000 + val as u64;
        } else {
            self.timecmp = self.timecmp % 0x1_0000_0000 + val as u64 * 0x1_0000_0000;
        }
    }
}


/// Reading back the half that was written yields the written word.
pub proof fn lemma_set_get_half(cur: u64, addr: u64, val: u32)
    requires
        addr == 0 || addr == 4,
    ensures
        get_half(set_half(cur, addr, val), addr) == val,
{
    if addr == 0 {
        assert(((cur / 0x1_0000_0000) * 0x1_0000_0000 + val) % 0x1_0000_0000 == val)
            by (nonlinear_arith);
    } else {
        assert((cur % 0x1_0000_0000 + val * 0x1_0000_0000) / 0x1_0000_0000 == val)
            by (nonlinear_arith);
    }
}

} // verus!
