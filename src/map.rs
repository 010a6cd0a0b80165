//! Memory map of the console. Every range is inclusive.
use vstd::prelude::*;

verus! {

/// Cartridge ROM.
pub const ROM_FIRST: u16 = 0x0000;
pub const ROM_LAST: u16 = 0x7fff;
/// Video memory.
pub const VRAM_FIRST: u16 = 0x8000;
pub const VRAM_LAST: u16 = 0x9fff;
/// Cartridge RAM bank.
pub const RAM_BANK_FIRST: u16 = 0xa000;
pub const RAM_BANK_LAST: u16 = 0xbfff;
/// Internal RAM.
pub const IRAM_FIRST: u16 = 0xc000;
pub const IRAM_LAST: u16 = 0xdfff;
/// Echo of the internal RAM.
pub const IRAM_ECHO_FIRST: u16 = 0xe000;
pub const IRAM_ECHO_LAST: u16 = 0xfdff;
/// Sprite-attribute memory (OAM).
pub const OAM_FIRST: u16 = 0xfe00;
pub const OAM_LAST: u16 = 0xfe9f;
/// I/O register window.
pub const IO_FIRST: u16 = 0xff00;
pub const IO_LAST: u16 = 0xff4b;
/// Zero-page RAM.
pub const ZERO_PAGE_FIRST: u16 = 0xff80;
pub const ZERO_PAGE_LAST: u16 = 0xfffe;
/// Interrupt-enable register.
pub const IEN: u16 = 0xffff;

/// Whether `addr` lies in the inclusive range `range`.
pub open spec fn in_range_spec(addr: u16, range: (u16, u16)) -> bool {
    range.0 <= addr <= range.1
}

/// Returns `Some(offset)` when `addr` lies in the inclusive range `range`,
/// `offset` being the distance of `addr` from the start of the range.
pub fn in_range(addr: u16, range: (u16, u16)) -> (r: Option<u16>)
    ensures
        in_range_spec(addr, range) <==> r.is_some(),
        r.is_some() ==> r.unwrap() == addr - range.0,
{
    let (first, last) = range;
    if addr >= first && addr <= last {
        Some(addr - first)
    } else {
        None
    }
}

/// Returns the number of bytes in the inclusive range `range`.
pub fn range_size(range: (u16, u16)) -> (r: u16)
    requires
        range.0 <= range.1,
        range.1 - range.0 < 0xffff,
    ensures
        r == range.1 - range.0 + 1,
{
    let (first, last) = range;
    last - first + 1
}

} // verus!
