//! The timer peripheral: a free-running divider and a configurable counter.
use vstd::prelude::*;

verus! {

/// Timer registers. `ticks` is the internal 16-bit divider, whose high byte
/// is the divider register.
#[derive(Clone, Copy, Debug, PartialEq, Eq, Structural)]
pub struct Timer {
    pub ticks: u16,
    pub counter: u8,
    pub modulo: u8,
    /// Bit 2 enables the counter, bits 0-1 select its rate.
    pub config: u8,
    /// Latched overflow interrupt.
    pub it: bool,
}

/// Ticks between two increments of the counter for the rate selected by
/// `config`.
pub open spec fn period(config: u8) -> u16 {
    let sel = config & 3;
    if sel == 0 {
        1024
    } else if sel == 1 {
        16
    } else if sel == 2 {
        64
    } else {
        256
    }
}

impl Timer {
    pub open spec fn power_on() -> Timer {
        Timer { ticks: 0, counter: 0, modulo: 0, config: 0, it: false }
    }

    /// The timer one tick later. On overflow the counter reloads the modulo
    /// and latches the interrupt.
    pub open spec fn stepped(self) -> Timer {
        let ticks: u16 = if self.ticks == 0xffff { 0 } else { (self.ticks + 1) as u16 };
        if self.config & 4 != 0 && ticks % period(self.config) == 0 {
            if self.counter == 0xff {
                Timer { ticks, counter: self.modulo, it: true, ..self }
            } else {
                Timer { ticks, counter: (self.counter + 1) as u8, ..self }
            }
        } else {
            Timer { ticks, ..self }
        }
    }

    pub open spec fn div_spec(self) -> u8 {
        (self.ticks >> 8) as u8
    }

    /// A timer in its power-on state.
    pub fn new() -> (r: Timer)
        ensures
            r == Timer::power_on(),
    {
        Timer { ticks: 0, counter: 0, modulo: 0, config: 0, it: false }
    }

    /// Restores the power-on state.
    pub fn reset(&mut self)
        ensures
            *final(self) == Timer::power_on(),
    {
        *self = Timer::new();
    }

    /// Moves the timer one tick forward.
    pub fn step(&mut self)
        ensures
            *final(self) == old(self).stepped(),
    {
        self.ticks = if self.ticks == 0xffff { 0 } else { self.ticks + 1 };
        let sel = self.config & 3;
        let p: u16 = if sel == 0 {
            1024
        } else if sel == 1 {
            16
        } else if sel == 2 {
            64
        } else {
            256
        };
        if self.config & 4 != 0 && self.ticks % p == 0 {
            if self.counter == 0xff {
                self.counter = self.modulo;
                self.it = true;
            } else {
                self.counter = self.counter + 1;
            }
        }
    }

    /// Divider register.
    pub fn div(&self) -> (r: u8)
        ensures
            r == self.div_spec(),
    {
        (self.ticks >> 8) as u8
    }

    /// A write to the divider register clears it.
    pub fn reset_div(&mut self)
        ensures
            *final(self) == (Timer { ticks: 0, ..*old(self) }),
    {
        self.ticks = 0;
    }

    /// Stores the configuration, masked to its three bits.
    pub fn set_config(&mut self, val: u8)
        ensures
            *final(self) == (Timer { config: val & 7, ..*old(self) }),
    {
        self.config = val & 7;
    }
}

} // verus!
