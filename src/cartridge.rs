//! A cartridge without bank switching: a ROM image and a RAM bank.
use vstd::prelude::*;
use crate::ram::filled;

verus! {

/// Byte read past the end of the ROM image or of the RAM bank.
pub const OPEN_BUS: u8 = 0xff;

/// Mathematical model of a cartridge.
pub struct CartridgeView {
    pub rom: Seq<u8>,
    pub ram: Seq<u8>,
}

impl CartridgeView {
    pub open spec fn rom_byte(self, off: u16) -> u8 {
        if off < self.rom.len() { self.rom[off as int] } else { OPEN_BUS }
    }

    pub open spec fn ram_byte(self, off: u16) -> u8 {
        if off < self.ram.len() { self.ram[off as int] } else { OPEN_BUS }
    }

    pub open spec fn with_ram_byte(self, off: u16, val: u8) -> CartridgeView {
        if off < self.ram.len() {
            CartridgeView { ram: self.ram.update(off as int, val), ..self }
        } else {
            self
        }
    }
}

/// A cartridge: ROM image and RAM bank.
pub struct Cartridge {
    rom: Vec<u8>,
    ram: Vec<u8>,
}

impl View for Cartridge {
    type V = CartridgeView;

    closed spec fn view(&self) -> CartridgeView {
        CartridgeView { rom: self.rom@, ram: self.ram@ }
    }
}

impl Cartridge {
    /// A cartridge holding `rom`, with a RAM bank of `ram_size` zero bytes.
    pub fn new(rom: Vec<u8>, ram_size: usize) -> (r: Cartridge)
        ensures
            r@.rom == rom@,
            r@.ram == Seq::new(ram_size as nat, |_i: int| 0u8),
    {
        Cartridge { rom, ram: filled(ram_size, 0) }
    }

    /// ROM byte at `off`; 0xff past the end of the image.
    pub fn rom_byte(&self, off: u16) -> (r: u8)
        ensures
            r == self@.rom_byte(off),
    {
        if (off as usize) < self.rom.len() {
            self.rom[off as usize]
        } else {
            OPEN_BUS
        }
    }

    /// A write into the ROM window. Without bank switching it changes
    /// nothing.
    pub fn set_rom_byte(&mut self, _off: u16, _val: u8)
        ensures
            final(self)@ == old(self)@,
    {
    }

    /// RAM bank byte at `off`; 0xff past the end of the bank.
    pub fn ram_byte(&self, off: u16) -> (r: u8)
        ensures
            r == self@.ram_byte(off),
    {
        if (off as usize) < self.ram.len() {
            self.ram[off as usize]
        } else {
            OPEN_BUS
        }
    }

    /// Stores `val` at `off` in the RAM bank; dropped past its end.
    pub fn set_ram_byte(&mut self, off: u16, val: u8)
        ensures
            final(self)@ == old(self)@.with_ram_byte(off, val),
    {
        if (off as usize) < self.ram.len() {
            self.ram.set(off as usize, val);
        }
    }
}

} // verus!
