//! An 8250-subset UART. The register file is modelled in full; the host side
//! is a pair of byte queues: bytes written to THR are appended to `output`,
//! and reads of RBR consume `input`. An RBR read that finds the queue empty
//! yields zero and raises `rx_starved`; the embedding program blocks for
//! host input exactly then and refills the queue, which reproduces the
//! receiver blocking the hart until a byte is available.
//!
//! Simplifications, as the registers report them: FIFOs are never full, there
//! are no transmission errors, and ISR always reads "no interrupt".
use vstd::prelude::*;

verus! {

#[derive(Debug)]
pub struct Uart {
    pub int_en: u8,
    pub line_control: u8,
    pub modem_control: u8,
    pub scratch: u8,
    pub div_latch_lo: u8,
    pub div_latch_hi: u8,
    pub input: Vec<u8>,
    pub output: Vec<u8>,
    pub rx_starved: bool,
}

pub const IER_MASK: u8 = 0x0f;
pub const MCR_MASK: u8 = 0x1f;

pub const LCR_DLAB: u8 = 0x80;  // Divisor latch access bit
pub const LSR_VAL: u8 = 0x61;  // No error, TX always empty, RX always ready
pub const ISR_NO_INT: u8 = 0x01;  // No interrupt pending

impl Uart {
    pub open spec fn dlab_set(self) -> bool {
        self.line_control & LCR_DLAB != 0
    }

    /// The byte a load from `addr` yields.
    pub open spec fn read_val(self, addr: u64) -> u8 {
        if addr == 0 {
            if !self.dlab_set() {
                if self.input@.len() > 0 {
                    self.input@[0]
                } else {
                    0
                }
            } else {
                self.div_latch_lo
            }
        } else if addr == 1 {
            if !self.dlab_set() {
                self.int_en
            } else {
                self.div_latch_hi
            }
        } else if addr == 2 {
            ISR_NO_INT
        } else if addr == 3 {
            self.line_control
        } else if addr == 4 {
            self.modem_control
        } else if addr == 5 {
            LSR_VAL
        } else if addr == 6 {
            0
        } else {
            self.scratch
        }
    }

    /// Whether a load from `addr` consumes a byte of host input.
    pub open spec fn read_consumes(self, addr: u64) -> bool {
        addr == 0 && !self.dlab_set() && self.input@.len() > 0
    }

    /// Whether a load from `addr` is a receiver read that finds no host
    /// input: the hart is starved until the embedding refills the queue.
    pub open spec fn read_starves(self, addr: u64) -> bool {
        addr == 0 && !self.dlab_set() && self.input@.len() == 0
    }

    pub fn new() -> (r: Uart)
        ensures
            r.int_en == 0,
            r.line_control == 0,
            r.modem_control == 0,
            r.scratch == 0,
            r.div_latch_lo == 1,
            r.div_latch_hi == 0,
            r.input@.len() == 0,
            r.output@.len() == 0,
            r.rx_starved == false,
    {
        Uart {
            int_en: 0,
            line_control: 0,
            modem_control: 0,
            scratch: 0,
            div_latch_lo: 1,
            div_latch_hi: 0,
            input: Vec::new(),
            output: Vec::new(),
            rx_starved: false,
        }
    }

    fn is_dlab_set(&self) -> (r: bool)
        ensures
            r == self.dlab_set(),
    {
        self.line_control & LCR_DLAB != 0
    }

    pub fn write(&mut self, addr: u64, val: u8)
        requires
            addr < 8,
        ensures
            ({
                let o = *old(self);
                let n = *final(self);
                &&& n.input == o.input
                &&& (if addr == 0 && !o.dlab_set() {
                    n == (Uart { output: n.output, ..o }) && n.output@ == o.output@.push(val)
                } else {
                    n.output == o.output && n == if addr == 0 {
                        Uart { div_latch_lo: val, ..o }
                    } else if addr == 1 && !o.dlab_set() {
                        Uart { int_en: val & IER_MASK, ..o }
                    } else if addr == 1 {
                        Uart { div_latch_hi: val, ..o }
                    } else if addr == 3 {
                        Uart { line_control: val, ..o }
                    } else if addr == 4 {
                        Uart { modem_control: val & MCR_MASK, ..o }
                    } else if addr == 7 {
                        Uart { scratch: val, ..o }
                    } else {
                        o
                    }
                })
            }),
    {
        if addr == 0 {
            if !self.is_dlab_set() {
                // THR: transmission holding register
                self.output.push(val);
            } else {
                self.div_latch_lo = val;  // Divisor latch
            }
        } else if addr == 1 {
            if !self.is_dlab_set() {
                // IER: interrupt enable register
                self.int_en = val & IER_MASK;
            } else {
                self.div_latch_hi = val;  // Divisor latch
            }
        } else if addr == 3 {
            self.line_control = val;  // LCR: line control register
        } else if addr == 4 {
            self.modem_control = val & MCR_MASK;  // MCR: modem control register
        } else if addr == 7 {
            self.scratch = val;  // SPR: scratch pad register
        }
    }

    pub fn read(&mut self, addr: u64) -> (r: u8)
        requires
            addr < 8,
        ensures
            r == old(self).read_val(addr),
            old(self).read_consumes(addr) ==> final(self).input@ == old(self).input@.drop_first()
                && *final(self) == (Uart { input: final(self).input, ..*old(self) }),
            old(self).read_starves(addr) ==> *final(self) == (Uart {
                rx_starved: true,
                ..*old(self)
            }),
            !old(self).read_consumes(addr) && !old(self).read_starves(addr) ==> *final(self)
                == *old(self),
    {
        if addr == 0 {
            if !self.is_dlab_set() {
                // RBR: receiver buffer register
                if self.input.len() > 0 {
                    self.input.remove(0)
                } else {
                    self.rx_starved = true;
                    0
                }
            } else {
                self.div_latch_lo  // Divisor latch
            }
        } else if addr == 1 {
            if !self.is_dlab_set() {
                self.int_en  // IER: interrupt enable register
            } else {
                self.div_latch_hi  // Divisor latch
            }
        } else if addr == 2 {
            ISR_NO_INT  // ISR: interrupt status register
        } else if addr == 3 {
            self.line_control  // LCR: line control register
        } else if addr == 4 {
            self.modem_control  // MCR: modem control register
        } else if addr == 5 {
            LSR_VAL  // LSR: line status register
        } else if addr == 6 {
            0  // MSR: modem status register
        } else {
            self.scratch  // SPR: scratch pad register
        }
    }

    /// Hand a byte of host input to the receiver queue; the receiver is no
    /// longer starved.
    pub fn push_input(&mut self, b: u8)
        ensures
            final(self).input@ == old(self).input@.push(b),
            *final(self) == (Uart {
                input: final(self).input,
                rx_starved: false,
                ..*old(self)
            }),
    {
        self.input.push(b);
        self.rx_starved = false;
    }

    /// Take everything written to the transmitter since the last call.
    pub fn take_output(&mut self) -> (r: Vec<u8>)
        ensures
            r@ == old(self).output@,
            final(self).output@.len() == 0,
            *final(self) == (Uart { output: final(self).output, ..*old(self) }),
    {
        let mut out: Vec<u8> = Vec::new();
        core::mem::swap(&mut out, &mut self.output);
        out
    }
}

} // verus!
