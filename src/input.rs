//! Snapshot of the controller's buttons and the input matrix register.
use vstd::prelude::*;
use crate::interrupts::bit_if;

verus! {

/// State of the eight buttons; `true` means pressed.
#[derive(Clone, Copy, Debug, PartialEq, Eq, Structural)]
pub struct Buttons {
    pub right: bool,
    pub left: bool,
    pub up: bool,
    pub down: bool,
    pub a: bool,
    pub b: bool,
    pub select: bool,
    pub start: bool,
}

/// The input matrix register for the selection byte `sel`: bit 4 clear
/// selects the direction pad, bit 5 clear the action pad. Within a selected
/// pad a released button reads 1 and a pressed one 0 (right/A at bit 0,
/// left/B at bit 1, up/select at bit 2, down/start at bit 3); a pad that is
/// not selected contributes nothing.
pub open spec fn input_byte(sel: u8, k: Buttons) -> u8 {
    let dir = bit_if(!k.right, 1) | bit_if(!k.left, 2) | bit_if(!k.up, 4) | bit_if(!k.down, 8);
    let act = bit_if(!k.a, 1) | bit_if(!k.b, 2) | bit_if(!k.select, 4) | bit_if(!k.start, 8);
    bit_if(sel & 0x10 == 0, dir) | bit_if(sel & 0x20 == 0, act)
}

fn released_bit(pressed: bool, bit: u8) -> (r: u8)
    ensures
        r == bit_if(!pressed, bit),
{
    if pressed { 0 } else { bit }
}

impl Buttons {
    pub open spec fn released_spec() -> Buttons {
        Buttons {
            right: false,
            left: false,
            up: false,
            down: false,
            a: false,
            b: false,
            select: false,
            start: false,
        }
    }

    /// All buttons released.
    pub fn released() -> (r: Buttons)
        ensures
            r == Buttons::released_spec(),
    {
        Buttons {
            right: false,
            left: false,
            up: false,
            down: false,
            a: false,
            b: false,
            select: false,
            start: false,
        }
    }

    /// The input matrix register for the selection byte `sel`.
    pub fn matrix(&self, sel: u8) -> (r: u8)
        ensures
            r == input_byte(sel, *self),
    {
        let dir = released_bit(self.right, 1) | released_bit(self.left, 2) | released_bit(self.up, 4)
            | released_bit(self.down, 8);
        let act = released_bit(self.a, 1) | released_bit(self.b, 2) | released_bit(self.select, 4)
            | released_bit(self.start, 8);
        let d: u8 = if sel & 0x10 == 0 { dir } else { 0 };
        let c: u8 = if sel & 0x20 == 0 { act } else { 0 };
        d | c
    }
}

} // verus!
