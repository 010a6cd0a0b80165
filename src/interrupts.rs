//! Interrupt sources and the interrupt register format.
use vstd::prelude::*;

verus! {

/// The sources of interrupt, from highest to lowest priority.
#[derive(Clone, Copy, Debug, PartialEq, Eq, Structural)]
pub enum Interrupt {
    /// The video controller entered vertical blanking.
    VBlank,
    /// The line-compare condition of the video controller.
    Lcdc,
    /// Timer overflow.
    Timer,
}

/// One flag per interrupt source, in the layout of the interrupt-enable and
/// interrupt-flag registers: bit 0 vblank, bit 1 LCD controller, bit 2
/// timer, bit 3 serial, bit 4 button.
#[derive(Clone, Copy, Debug, PartialEq, Eq, Structural)]
pub struct Interrupts {
    pub vblank: bool,
    pub lcdc: bool,
    pub timer: bool,
    pub serial: bool,
    pub button: bool,
}

/// `bit` when `set`, else 0.
pub open spec fn bit_if(set: bool, bit: u8) -> u8 {
    if set { bit } else { 0 }
}

impl Interrupts {
    pub open spec fn from_byte(reg: u8) -> Interrupts {
        Interrupts {
            vblank: reg & 0x01 != 0,
            lcdc: reg & 0x02 != 0,
            timer: reg & 0x04 != 0,
            serial: reg & 0x08 != 0,
            button: reg & 0x10 != 0,
        }
    }

    pub open spec fn as_byte(self) -> u8 {
        bit_if(self.vblank, 0x01) | bit_if(self.lcdc, 0x02) | bit_if(self.timer, 0x04)
            | bit_if(self.serial, 0x08) | bit_if(self.button, 0x10)
    }

    /// Decodes an interrupt register.
    pub fn from_register(reg: u8) -> (r: Interrupts)
        ensures
            r == Interrupts::from_byte(reg),
    {
        Interrupts {
            vblank: reg & 0x01 != 0,
            lcdc: reg & 0x02 != 0,
            timer: reg & 0x04 != 0,
            serial: reg & 0x08 != 0,
            button: reg & 0x10 != 0,
        }
    }

    /// Encodes the flags as an interrupt register.
    pub fn as_register(&self) -> (r: u8)
        ensures
            r == self.as_byte(),
    {
        let v: u8 = if self.vblank { 0x01 } else { 0 };
        let l: u8 = if self.lcdc { 0x02 } else { 0 };
        let t: u8 = if self.timer { 0x04 } else { 0 };
        let s: u8 = if self.serial { 0x08 } else { 0 };
        let b: u8 = if self.button { 0x10 } else { 0 };
        v | l | t | s | b
    }
}

/// Encoding the decoded register gives back its five defined bits.
pub proof fn lemma_register_round_trip(reg: u8)
    ensures
        Interrupts::from_byte(reg).as_byte() == reg & 0x1f,
{
    let f = Interrupts::from_byte(reg);
    let v = bit_if(f.vblank, 0x01);
    let l = bit_if(f.lcdc, 0x02);
    let t = bit_if(f.timer, 0x04);
    let s = bit_if(f.serial, 0x08);
    let b = bit_if(f.button, 0x10);
    assert(v == reg & 0x01) by (bit_vector)
        requires v == (if reg & 0x01 != 0 { 0x01u8 } else { 0u8 });
    assert(l == reg & 0x02) by (bit_vector)
        requires l == (if reg & 0x02 != 0 { 0x02u8 } else { 0u8 });
    assert(t == reg & 0x04) by (bit_vector)
        requires t == (if reg & 0x04 != 0 { 0x04u8 } else { 0u8 });
    assert(s == reg & 0x08) by (bit_vector)
        requires s == (if reg & 0x08 != 0 { 0x08u8 } else { 0u8 });
    assert(b == reg & 0x10) by (bit_vector)
        requires b == (if reg & 0x10 != 0 { 0x10u8 } else { 0u8 });
    assert((reg & 0x01) | (reg & 0x02) | (reg & 0x04) | (reg & 0x08) | (reg & 0x10) == reg & 0x1f)
        by (bit_vector);
}

} // verus!
