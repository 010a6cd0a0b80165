//! Video timing controller: scanline and column counters, display mode,
//! sprite-attribute memory (OAM), video memory and the video register file.
use vstd::prelude::*;
use crate::ram::{fill, filled};

verus! {

/// Number of bytes of sprite-attribute memory.
pub const OAM_SIZE: usize = 0xa0;
/// Number of bytes of video memory.
pub const VRAM_SIZE: usize = 0x2000;
/// Byte that fills the sprite-attribute memory at power-on.
pub const OAM_FILL: u8 = 0xca;
/// Byte read from sprite-attribute memory while it is locked, or past its end.
pub const OAM_GARBAGE: u8 = 0xff;
/// Last column of a scanline: a scanline lasts 456 ticks.
pub const LAST_COL: u16 = 455;
/// First line of vertical blanking.
pub const VBLANK_LINE: u8 = 144;
/// Last value the line counter takes before a new frame starts.
pub const LAST_LINE: u8 = 154;
/// Ticks in a frame: 155 lines of 456 columns.
pub const FRAME_TICKS: u32 = 70680;

/// Current video mode, derived from the position of the counters.
#[derive(Clone, Copy, Debug, PartialEq, Eq, Structural)]
pub enum Mode {
    /// Horizontal blanking.
    HBlank,
    /// Vertical blanking.
    VBlank,
    /// Scanning sprite memory: OAM cannot be accessed.
    Prelude,
    /// Scanning sprite and video memory: OAM cannot be accessed.
    Active,
}

/// The mode of the video controller at scanline `line` and column `col`.
pub open spec fn mode_of(line: u8, col: u16) -> Mode {
    if line >= 144 {
        Mode::VBlank
    } else if col <= 79 {
        Mode::Prelude
    } else if col <= 172 {
        Mode::Active
    } else {
        Mode::HBlank
    }
}

/// Whether the sprite-attribute memory can be accessed in mode `m`.
pub open spec fn oam_accessible(m: Mode) -> bool {
    m == Mode::HBlank || m == Mode::VBlank
}

/// Position `(line, col)` one tick after `(line, col)`. The line counter
/// passes through 154 before a new frame starts at line 0.
pub open spec fn next_position(line: u8, col: u16) -> (u8, u16) {
    if col < LAST_COL {
        (line, (col + 1) as u16)
    } else if line < LAST_LINE {
        ((line + 1) as u8, 0)
    } else {
        (0, 0)
    }
}

/// Position of the counters `t` ticks after reset.
pub open spec fn position_after(t: nat) -> (u8, u16)
    decreases t,
{
    if t == 0 {
        (0, 0)
    } else {
        let p = position_after((t - 1) as nat);
        next_position(p.0, p.1)
    }
}

/// Whether the tick taken at `(line, col)` completes a frame: it enters
/// vertical blanking.
pub open spec fn ends_frame(line: u8, col: u16) -> bool {
    col == LAST_COL && line == VBLANK_LINE - 1
}

/// The byte-sized registers of the video controller and its two interrupt
/// latches.
#[derive(Clone, Copy, Debug, PartialEq, Eq, Structural)]
pub struct VideoRegs {
    pub lcdc: u8,
    pub stat: u8,
    pub scy: u8,
    pub scx: u8,
    pub lyc: u8,
    pub bgp: u8,
    pub obp0: u8,
    pub obp1: u8,
    pub wy: u8,
    pub wx: u8,
    /// Latched vertical-blank interrupt.
    pub it_vblank: bool,
    /// Latched line-compare interrupt.
    pub it_lcd: bool,
}

/// Registers at power-on.
pub open spec fn power_on_regs() -> VideoRegs {
    VideoRegs {
        lcdc: 0,
        stat: 0,
        scy: 0,
        scx: 0,
        lyc: 0,
        bgp: 0,
        obp0: 0,
        obp1: 0,
        wy: 0,
        wx: 0,
        it_vblank: false,
        it_lcd: false,
    }
}

/// Mathematical model of the video controller.
pub struct GpuView {
    pub line: u8,
    pub col: u16,
    pub oam: Seq<u8>,
    pub vram: Seq<u8>,
    pub regs: VideoRegs,
}

impl GpuView {
    pub open spec fn wf(self) -> bool {
        &&& self.oam.len() == OAM_SIZE
        &&& self.vram.len() == VRAM_SIZE
        &&& self.line <= LAST_LINE
        &&& self.col <= LAST_COL
    }

    pub open spec fn mode(self) -> Mode {
        mode_of(self.line, self.col)
    }

    /// The controller one tick later, and whether that tick completed a frame.
    /// Entering vertical blanking latches the vertical-blank interrupt;
    /// reaching the line held in the line-compare register latches the
    /// line-compare interrupt.
    pub open spec fn stepped(self) -> (GpuView, bool) {
        let (line, col) = next_position(self.line, self.col);
        let done = ends_frame(self.line, self.col);
        let lcd_hit = col == 0 && line == self.regs.lyc;
        let regs = VideoRegs {
            it_vblank: self.regs.it_vblank || done,
            it_lcd: self.regs.it_lcd || lcd_hit,
            ..self.regs
        };
        (GpuView { line, col, regs, ..self }, done)
    }

    /// The controller `k` ticks later.
    pub open spec fn steps(self, k: nat) -> GpuView
        decreases k,
    {
        if k == 0 {
            self
        } else {
            self.steps((k - 1) as nat).stepped().0
        }
    }

    /// Byte read from OAM at `addr`, masked to eight bits.
    pub open spec fn oam_read(self, addr: u16) -> Option<u8> {
        let a = (addr & 0xff) as int;
        if !oam_accessible(self.mode()) {
            None
        } else if a < OAM_SIZE {
            Some(self.oam[a])
        } else {
            Some(OAM_GARBAGE)
        }
    }

    /// OAM after a write of `val` at `addr`, masked to eight bits; `None`
    /// while OAM is locked.
    pub open spec fn oam_write(self, addr: u16, val: u8) -> Option<Seq<u8>> {
        let a = (addr & 0xff) as int;
        if !oam_accessible(self.mode()) {
            None
        } else if a < OAM_SIZE {
            Some(self.oam.update(a, val))
        } else {
            Some(self.oam)
        }
    }
}

/// The video controller.
pub struct Gpu {
    line: u8,
    col: u16,
    oam: Vec<u8>,
    vram: Vec<u8>,
    regs: VideoRegs,
}

impl View for Gpu {
    type V = GpuView;

    closed spec fn view(&self) -> GpuView {
        GpuView { line: self.line, col: self.col, oam: self.oam@, vram: self.vram@, regs: self.regs }
    }
}

impl Gpu {
    /// Model of a freshly powered-on controller.
    pub open spec fn power_on(vram: Seq<u8>) -> GpuView {
        GpuView {
            line: 0,
            col: 0,
            oam: Seq::new(OAM_SIZE as nat, |_i: int| OAM_FILL),
            vram,
            regs: power_on_regs(),
        }
    }

    /// Creates a controller in its power-on state.
    pub fn new() -> (r: Gpu)
        ensures
            r@ == Gpu::power_on(Seq::new(VRAM_SIZE as nat, |_i: int| 0u8)),
            r@.wf(),
    {
        Gpu {
            line: 0,
            col: 0,
            oam: filled(OAM_SIZE, OAM_FILL),
            vram: filled(VRAM_SIZE, 0),
            regs: VideoRegs {
                lcdc: 0,
                stat: 0,
                scy: 0,
                scx: 0,
                lyc: 0,
                bgp: 0,
                obp0: 0,
                obp1: 0,
                wy: 0,
                wx: 0,
                it_vblank: false,
                it_lcd: false,
            },
        }
    }

    /// Restores counters, OAM and registers to their power-on values. Video
    /// memory keeps its contents.
    pub fn reset(&mut self)
        requires
            old(self)@.wf(),
        ensures
            final(self)@ == Gpu::power_on(old(self)@.vram),
            final(self)@.wf(),
    {
        self.line = 0;
        self.col = 0;
        fill(&mut self.oam, OAM_FILL);
        self.regs = VideoRegs {
            lcdc: 0,
            stat: 0,
            scy: 0,
            scx: 0,
            lyc: 0,
            bgp: 0,
            obp0: 0,
            obp1: 0,
            wy: 0,
            wx: 0,
            it_vblank: false,
            it_lcd: false,
        };
    }

    /// Moves the controller one tick forward. Returns whether the tick
    /// completed a frame, which is when the display should present it.
    pub fn step(&mut self) -> (frame_done: bool)
        requires
            old(self)@.wf(),
        ensures
            (final(self)@, frame_done) == old(self)@.stepped(),
            final(self)@.wf(),
    {
        let mut done = false;
        if self.col < LAST_COL {
            self.col = self.col + 1;
        } else {
            self.col = 0;
            if self.line < LAST_LINE {
                self.line = self.line + 1;
                if self.line == VBLANK_LINE {
                    done = true;
                    self.regs.it_vblank = true;
                }
            } else {
                self.line = 0;
            }
            if self.line == self.regs.lyc {
                self.regs.it_lcd = true;
            }
        }
        done
    }

    /// Current mode.
    pub fn get_mode(&self) -> (r: Mode)
        ensures
            r == mode_of(self@.line, self@.col),
    {
        if self.line < VBLANK_LINE {
            if self.col <= 79 {
                Mode::Prelude
            } else if self.col <= 172 {
                Mode::Active
            } else {
                Mode::HBlank
            }
        } else {
            Mode::VBlank
        }
    }

    /// Line currently drawn.
    pub fn get_line(&self) -> (r: u8)
        ensures
            r == self@.line,
    {
        self.line
    }

    /// Position in the current line.
    pub fn get_col(&self) -> (r: u16)
        ensures
            r == self@.col,
    {
        self.col
    }

    /// Reads OAM at `addr` modulo 256. Access is refused with `None` in
    /// `Prelude` and `Active` mode; past the 160 bytes of OAM it reads 0xff.
    pub fn get_oam(&self, addr: u16) -> (r: Option<u8>)
        requires
            self@.wf(),
        ensures
            r == self@.oam_read(addr),
    {
        let m = self.get_mode();
        match m {
            Mode::Prelude | Mode::Active => None,
            _ => {
                let a = (addr & 0xff) as usize;
                if a < OAM_SIZE {
                    Some(self.oam[a])
                } else {
                    Some(OAM_GARBAGE)
                }
            },
        }
    }

    /// Writes `val` into OAM at `addr` modulo 256. Returns false, and writes
    /// nothing, in `Prelude` and `Active` mode; past the 160 bytes of OAM the
    /// write is dropped.
    pub fn set_oam(&mut self, addr: u16, val: u8) -> (done: bool)
        requires
            old(self)@.wf(),
        ensures
            done == old(self)@.oam_write(addr, val).is_some(),
            final(self)@ == (GpuView {
                oam: match old(self)@.oam_write(addr, val) {
                    Some(o) => o,
                    None => old(self)@.oam,
                },
                ..old(self)@
            }),
            final(self)@.wf(),
    {
        let m = self.get_mode();
        match m {
            Mode::Prelude | Mode::Active => false,
            _ => {
                let a = (addr & 0xff) as usize;
                if a < OAM_SIZE {
                    self.oam.set(a, val);
                }
                true
            },
        }
    }

    /// Byte of OAM at index `idx` whatever the mode, for inspection.
    pub fn peek_oam(&self, idx: u16) -> (r: u8)
        requires
            self@.wf(),
            idx < OAM_SIZE,
        ensures
            r == self@.oam[idx as int],
    {
        self.oam[idx as usize]
    }

    /// Writes `val` into OAM at index `idx` whatever the mode: the path of
    /// the DMA engine, which has precedence over the video scan.
    pub fn dma_write_oam(&mut self, idx: u16, val: u8)
        requires
            old(self)@.wf(),
            idx < OAM_SIZE,
        ensures
            final(self)@ == (GpuView { oam: old(self)@.oam.update(idx as int, val), ..old(self)@ }),
            final(self)@.wf(),
    {
        self.oam.set(idx as usize, val);
    }

    /// Reads video memory at offset `off`.
    pub fn vram(&self, off: u16) -> (r: u8)
        requires
            self@.wf(),
            off < VRAM_SIZE,
        ensures
            r == self@.vram[off as int],
    {
        self.vram[off as usize]
    }

    /// Writes `val` into video memory at offset `off`.
    pub fn set_vram(&mut self, off: u16, val: u8)
        requires
            old(self)@.wf(),
            off < VRAM_SIZE,
        ensures
            final(self)@ == (GpuView { vram: old(self)@.vram.update(off as int, val), ..old(self)@ }),
            final(self)@.wf(),
    {
        self.vram.set(off as usize, val);
    }

    /// The register file and interrupt latches.
    pub fn regs(&self) -> (r: VideoRegs)
        ensures
            r == self@.regs,
    {
        self.regs
    }

    /// Replaces the register file and interrupt latches.
    pub fn set_regs(&mut self, regs: VideoRegs)
        ensures
            final(self)@ == (GpuView { regs, ..old(self)@ }),
    {
        self.regs = regs;
    }
}

/// Mode derivation depends on the position of the counters alone: two
/// controllers at the same line and column are in the same mode.
pub proof fn lemma_mode_depends_on_position(a: GpuView, b: GpuView)
    requires
        a.line == b.line,
        a.col == b.col,
    ensures
        a.mode() == b.mode(),
{
}

/// Counting ticks from reset: `t` ticks put the counters at line
/// `(t mod 70680) / 456` and column `t mod 456`, lines 0 to 154 lasting 456
/// ticks each.
pub proof fn lemma_position_after(t: nat)
    ensures
        position_after(t) == (((t % (FRAME_TICKS as nat)) / 456) as u8, (t % 456) as u16),
    decreases t,
{
    if t > 0 {
        let p = (t - 1) as nat;
        lemma_position_after(p);
        let q: int = p as int / FRAME_TICKS as int;
        let r: int = p as int % FRAME_TICKS as int;
        let l: int = r / 456;
        let c: int = r % 456;
        vstd::arithmetic::div_mod::lemma_fundamental_div_mod(p as int, FRAME_TICKS as int);
        vstd::arithmetic::div_mod::lemma_fundamental_div_mod(r, 456);
        assert(p % 456 == c) by {
            vstd::arithmetic::div_mod::lemma_fundamental_div_mod_converse(
                p as int, 456, q * 155 + l, c);
        }
        if c < 455 {
            vstd::arithmetic::div_mod::lemma_fundamental_div_mod_converse(
                t as int, FRAME_TICKS as int, q, r + 1);
            vstd::arithmetic::div_mod::lemma_fundamental_div_mod_converse(
                r + 1, 456, l, c + 1);
            vstd::arithmetic::div_mod::lemma_fundamental_div_mod_converse(
                t as int, 456, q * 155 + l, c + 1);
        } else if l < 154 {
            vstd::arithmetic::div_mod::lemma_fundamental_div_mod_converse(
                t as int, FRAME_TICKS as int, q, r + 1);
            vstd::arithmetic::div_mod::lemma_fundamental_div_mod_converse(
                r + 1, 456, l + 1, 0);
            vstd::arithmetic::div_mod::lemma_fundamental_div_mod_converse(
                t as int, 456, q * 155 + l + 1, 0);
        } else {
            vstd::arithmetic::div_mod::lemma_fundamental_div_mod_converse(
                t as int, FRAME_TICKS as int, q + 1, 0);
            vstd::arithmetic::div_mod::lemma_fundamental_div_mod_converse(
                t as int, 456, q * 155 + 155, 0);
        }
    }
}

/// Advancing a controller `t` times from line 0, column 0 leaves its
/// counters at line `(t mod 70680) / 456`, column `t mod 456`.
pub proof fn lemma_counters_after_reset(v: GpuView, t: nat)
    requires
        v.line == 0,
        v.col == 0,
    ensures
        v.steps(t).line == (t % (FRAME_TICKS as nat)) / 456,
        v.steps(t).col == t % 456,
{
    lemma_steps_follow_position(v, t);
    lemma_position_after(t);
}

proof fn lemma_steps_follow_position(v: GpuView, t: nat)
    requires
        v.line == 0,
        v.col == 0,
    ensures
        (v.steps(t).line, v.steps(t).col) == position_after(t),
    decreases t,
{
    if t > 0 {
        lemma_steps_follow_position(v, (t - 1) as nat);
    }
}

} // verus!
