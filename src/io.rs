//! The bus dispatcher: owns every peripheral, routes each address through
//! the memory map, multiplexes the I/O register window, runs the DMA engine
//! and arbitrates interrupts.
use vstd::prelude::*;
use crate::cartridge::{Cartridge, CartridgeView};
use crate::gpu::{Gpu, GpuView, VideoRegs, OAM_GARBAGE, OAM_SIZE};
use crate::input::{input_byte, Buttons};
use crate::interrupts::{Interrupt, Interrupts};
use crate::map::{
    in_range, range_size, IEN, IO_FIRST, IO_LAST, IRAM_ECHO_FIRST, IRAM_ECHO_LAST, IRAM_FIRST,
    IRAM_LAST, OAM_FIRST, OAM_LAST, RAM_BANK_FIRST, RAM_BANK_LAST, ROM_FIRST, ROM_LAST,
    VRAM_FIRST, VRAM_LAST, ZERO_PAGE_FIRST, ZERO_PAGE_LAST,
};
use crate::ram::{fill, filled, Ram};
use crate::timer::Timer;

verus! {

/// Size of the internal RAM.
pub const IRAM_SIZE: usize = 0x2000;
/// Size of the zero-page RAM.
pub const ZERO_PAGE_SIZE: usize = 0x7f;
/// Size of the I/O register window.
pub const IO_SIZE: usize = 0x4c;

// Offsets in the I/O register window.

/// Input button matrix.
pub const INPUT: u16 = 0x00;
/// Timer divider; a write clears it.
pub const DIV: u16 = 0x04;
/// Timer counter.
pub const TIMA: u16 = 0x05;
/// Timer modulo, reloaded into the counter on overflow.
pub const TMA: u16 = 0x06;
/// Timer configuration.
pub const TAC: u16 = 0x07;
/// Interrupt flags.
pub const IF: u16 = 0x0f;
/// LCD control.
pub const LCDC: u16 = 0x40;
/// LCD status.
pub const LCD_STAT: u16 = 0x41;
/// Background Y scroll.
pub const LCD_SCY: u16 = 0x42;
/// Background X scroll.
pub const LCD_SCX: u16 = 0x43;
/// Current line; read only.
pub const LCD_LY: u16 = 0x44;
/// Line compare.
pub const LCD_LYC: u16 = 0x45;
/// DMA trigger: the source page.
pub const DMA: u16 = 0x46;
/// Background palette.
pub const LCD_BGP: u16 = 0x47;
/// Sprite palette 0.
pub const LCD_OBP0: u16 = 0x48;
/// Sprite palette 1.
pub const LCD_OBP1: u16 = 0x49;
/// Window Y position.
pub const LCD_WY: u16 = 0x4a;
/// Window X position.
pub const LCD_WX: u16 = 0x4b;

/// Mathematical model of the bus and everything it owns.
pub struct BusView {
    pub cart: CartridgeView,
    pub iram: Seq<u8>,
    pub zpage: Seq<u8>,
    pub timer: Timer,
    pub gpu: GpuView,
    /// Storage behind the I/O registers that no peripheral models.
    pub io: Seq<u8>,
    /// Interrupt-enable mask.
    pub ie: Interrupts,
    pub dma_src: u16,
    /// Bytes of the current transfer copied so far; 160 or more when idle.
    pub dma_idx: u16,
    /// Last snapshot of the controller.
    pub buttons: Buttons,
    /// Set by a write to the input matrix register: the controller should
    /// refresh its snapshot.
    pub input_request: bool,
}

/// Video registers with `val` written at I/O offset `off`.
pub open spec fn regs_written(r: VideoRegs, off: u16, val: u8) -> VideoRegs {
    if off == LCDC {
        VideoRegs { lcdc: val, ..r }
    } else if off == LCD_STAT {
        VideoRegs { stat: val, ..r }
    } else if off == LCD_SCY {
        VideoRegs { scy: val, ..r }
    } else if off == LCD_SCX {
        VideoRegs { scx: val, ..r }
    } else if off == LCD_LYC {
        VideoRegs { lyc: val, ..r }
    } else if off == LCD_BGP {
        VideoRegs { bgp: val, ..r }
    } else if off == LCD_OBP0 {
        VideoRegs { obp0: val, ..r }
    } else if off == LCD_OBP1 {
        VideoRegs { obp1: val, ..r }
    } else if off == LCD_WY {
        VideoRegs { wy: val, ..r }
    } else if off == LCD_WX {
        VideoRegs { wx: val, ..r }
    } else {
        r
    }
}

/// Whether I/O offset `off` is a register of the video controller that can
/// be written.
pub open spec fn is_video_reg(off: u16) -> bool {
    off == LCDC || off == LCD_STAT || off == LCD_SCY || off == LCD_SCX || off == LCD_LYC
        || off == LCD_BGP || off == LCD_OBP0 || off == LCD_OBP1 || off == LCD_WY || off == LCD_WX
}

impl BusView {
    pub open spec fn wf(self) -> bool {
        &&& self.gpu.wf()
        &&& self.iram.len() == IRAM_SIZE
        &&& self.zpage.len() == ZERO_PAGE_SIZE
        &&& self.io.len() == IO_SIZE
        &&& self.dma_idx <= OAM_SIZE
    }

    /// The latched interrupt sources, as the interrupt-flag register shows them.
    pub open spec fn flags(self) -> Interrupts {
        Interrupts {
            vblank: self.gpu.regs.it_vblank,
            lcdc: self.gpu.regs.it_lcd,
            timer: self.timer.it,
            serial: false,
            button: false,
        }
    }

    /// Value read from the I/O register at offset `off`.
    pub open spec fn io_read(self, off: u16) -> u8 {
        let r = self.gpu.regs;
        if off == INPUT {
            input_byte(self.io[0], self.buttons)
        } else if off == DIV {
            self.timer.div_spec()
        } else if off == TIMA {
            self.timer.counter
        } else if off == TMA {
            self.timer.modulo
        } else if off == TAC {
            self.timer.config
        } else if off == DMA {
            (self.dma_src >> 8) as u8
        } else if off == IF {
            self.flags().as_byte()
        } else if off == LCD_STAT {
            r.stat
        } else if off == LCD_SCY {
            r.scy
        } else if off == LCD_SCX {
            r.scx
        } else if off == LCDC {
            r.lcdc
        } else if off == LCD_LY {
            self.gpu.line
        } else if off == LCD_LYC {
            r.lyc
        } else if off == LCD_BGP {
            r.bgp
        } else if off == LCD_OBP0 {
            r.obp0
        } else if off == LCD_OBP1 {
            r.obp1
        } else if off == LCD_WY {
            r.wy
        } else if off == LCD_WX {
            r.wx
        } else {
            self.io[off as int]
        }
    }

    /// Byte read at `addr`, through the memory map. Locked OAM reads 0xff;
    /// unmapped addresses read 0.
    pub open spec fn read(self, addr: u16) -> u8 {
        if addr <= ROM_LAST {
            self.cart.rom_byte(addr)
        } else if addr <= VRAM_LAST {
            self.gpu.vram[addr - VRAM_FIRST]
        } else if addr <= RAM_BANK_LAST {
            self.cart.ram_byte((addr - RAM_BANK_FIRST) as u16)
        } else if addr <= IRAM_LAST {
            self.iram[addr - IRAM_FIRST]
        } else if addr <= IRAM_ECHO_LAST {
            self.iram[addr - IRAM_ECHO_FIRST]
        } else if addr <= OAM_LAST {
            match self.gpu.oam_read((addr - OAM_FIRST) as u16) {
                Some(b) => b,
                None => OAM_GARBAGE,
            }
        } else if addr < IO_FIRST {
            0
        } else if addr <= IO_LAST {
            self.io_read((addr - IO_FIRST) as u16)
        } else if addr < ZERO_PAGE_FIRST {
            0
        } else if addr <= ZERO_PAGE_LAST {
            self.zpage[addr - ZERO_PAGE_FIRST]
        } else {
            self.ie.as_byte()
        }
    }

    /// One step of the DMA engine: while a transfer runs, the byte at the
    /// source address is copied into OAM at the transfer index, and both
    /// advance.
    pub open spec fn dma_stepped(self) -> BusView {
        if self.dma_idx >= OAM_SIZE {
            self
        } else {
            let b = self.read(self.dma_src);
            BusView {
                gpu: GpuView { oam: self.gpu.oam.update(self.dma_idx as int, b), ..self.gpu },
                dma_src: if self.dma_src == 0xffff { 0 } else { (self.dma_src + 1) as u16 },
                dma_idx: (self.dma_idx + 1) as u16,
                ..self
            }
        }
    }

    /// A transfer from page `page` starts, and its first byte is copied.
    pub open spec fn dma_started(self, page: u8) -> BusView {
        BusView { dma_idx: 0, dma_src: (page as u16) << 8u16, ..self }.dma_stepped()
    }

    /// The bus after `val` is written at I/O offset `off`. The value is kept
    /// in the register storage, then handed to the peripheral that owns the
    /// register, if any.
    pub open spec fn io_written(self, off: u16, val: u8) -> BusView {
        let s = BusView { io: self.io.update(off as int, val), ..self };
        if off == INPUT {
            BusView { input_request: true, ..s }
        } else if off == DIV {
            BusView { timer: Timer { ticks: 0, ..s.timer }, ..s }
        } else if off == TIMA {
            BusView { timer: Timer { counter: val, ..s.timer }, ..s }
        } else if off == TMA {
            BusView { timer: Timer { modulo: val, ..s.timer }, ..s }
        } else if off == TAC {
            BusView { timer: Timer { config: val & 7, ..s.timer }, ..s }
        } else if off == DMA {
            s.dma_started(val)
        } else if off == IF {
            let f = Interrupts::from_byte(val);
            BusView {
                gpu: GpuView {
                    regs: VideoRegs { it_vblank: f.vblank, it_lcd: f.lcdc, ..s.gpu.regs },
                    ..s.gpu
                },
                timer: Timer { it: f.timer, ..s.timer },
                ..s
            }
        } else if is_video_reg(off) {
            BusView { gpu: GpuView { regs: regs_written(s.gpu.regs, off, val), ..s.gpu }, ..s }
        } else {
            s
        }
    }

    /// The bus after `val` is written at `addr`, through the memory map.
    /// Writes into the ROM window, into locked OAM and at unmapped addresses
    /// change nothing.
    pub open spec fn written(self, addr: u16, val: u8) -> BusView {
        if addr <= ROM_LAST {
            self
        } else if addr <= VRAM_LAST {
            BusView {
                gpu: GpuView { vram: self.gpu.vram.update(addr - VRAM_FIRST, val), ..self.gpu },
                ..self
            }
        } else if addr <= RAM_BANK_LAST {
            BusView { cart: self.cart.with_ram_byte((addr - RAM_BANK_FIRST) as u16, val), ..self }
        } else if addr <= IRAM_LAST {
            BusView { iram: self.iram.update(addr - IRAM_FIRST, val), ..self }
        } else if addr <= IRAM_ECHO_LAST {
            BusView { iram: self.iram.update(addr - IRAM_ECHO_FIRST, val), ..self }
        } else if addr <= OAM_LAST {
            match self.gpu.oam_write((addr - OAM_FIRST) as u16, val) {
                Some(o) => BusView { gpu: GpuView { oam: o, ..self.gpu }, ..self },
                None => self,
            }
        } else if addr < IO_FIRST {
            self
        } else if addr <= IO_LAST {
            self.io_written((addr - IO_FIRST) as u16, val)
        } else if addr < ZERO_PAGE_FIRST {
            self
        } else if addr <= ZERO_PAGE_LAST {
            BusView { zpage: self.zpage.update(addr - ZERO_PAGE_FIRST, val), ..self }
        } else {
            BusView { ie: Interrupts::from_byte(val), ..self }
        }
    }

    /// One tick of the machine: the video controller, then the DMA engine,
    /// then the timer. The flag tells whether a frame was completed.
    pub open spec fn ticked(self) -> (BusView, bool) {
        let (g, done) = self.gpu.stepped();
        let s = BusView { gpu: g, ..self }.dma_stepped();
        (BusView { timer: s.timer.stepped(), ..s }, done)
    }

    /// The bus `k` ticks later.
    pub open spec fn ticks(self, k: nat) -> BusView
        decreases k,
    {
        if k == 0 {
            self
        } else {
            self.ticks((k - 1) as nat).ticked().0
        }
    }

    /// The highest-priority source that is both enabled and latched.
    pub open spec fn pending(self) -> Option<Interrupt> {
        let f = self.flags();
        if self.ie.vblank && f.vblank {
            Some(Interrupt::VBlank)
        } else if self.ie.lcdc && f.lcdc {
            Some(Interrupt::Lcdc)
        } else if self.ie.timer && f.timer {
            Some(Interrupt::Timer)
        } else {
            None
        }
    }

    /// The bus once the pending source, if any, has been acknowledged: its
    /// latch alone is cleared.
    pub open spec fn acked(self) -> BusView {
        match self.pending() {
            Some(Interrupt::VBlank) => BusView {
                gpu: GpuView { regs: VideoRegs { it_vblank: false, ..self.gpu.regs }, ..self.gpu },
                ..self
            },
            Some(Interrupt::Lcdc) => BusView {
                gpu: GpuView { regs: VideoRegs { it_lcd: false, ..self.gpu.regs }, ..self.gpu },
                ..self
            },
            Some(Interrupt::Timer) => BusView { timer: Timer { it: false, ..self.timer }, ..self },
            None => self,
        }
    }

    /// The bus after a reset: every peripheral back to power-on, the I/O
    /// storage cleared, no transfer running, every interrupt disabled. The
    /// cartridge, video memory and the controller snapshot are kept.
    pub open spec fn reset_spec(self) -> BusView {
        BusView {
            iram: Seq::new(self.iram.len(), |_i: int| 0u8),
            zpage: Seq::new(self.zpage.len(), |_i: int| 0u8),
            timer: Timer::power_on(),
            gpu: Gpu::power_on(self.gpu.vram),
            io: Seq::new(self.io.len(), |_i: int| 0u8),
            ie: Interrupts::from_byte(0),
            dma_src: 0,
            dma_idx: OAM_SIZE as u16,
            input_request: false,
            ..self
        }
    }
}

/// The bus dispatcher.
pub struct Interconnect {
    cartridge: Cartridge,
    iram: Ram,
    zpage: Ram,
    timer: Timer,
    gpu: Gpu,
    io: Vec<u8>,
    it_enabled: Interrupts,
    dma_src: u16,
    dma_idx: u16,
    buttons: Buttons,
    input_request: bool,
}

impl View for Interconnect {
    type V = BusView;

    closed spec fn view(&self) -> BusView {
        BusView {
            cart: self.cartridge@,
            iram: self.iram@,
            zpage: self.zpage@,
            timer: self.timer,
            gpu: self.gpu@,
            io: self.io@,
            ie: self.it_enabled,
            dma_src: self.dma_src,
            dma_idx: self.dma_idx,
            buttons: self.buttons,
            input_request: self.input_request,
        }
    }
}

impl Interconnect {
    /// Builds the bus around `cartridge` and `gpu`, with cleared RAM, a timer
    /// at power-on, no transfer running, every interrupt disabled and every
    /// button released.
    pub fn new(cartridge: Cartridge, gpu: Gpu) -> (r: Interconnect)
        requires
            gpu@.wf(),
        ensures
            r@.wf(),
            r@.cart == cartridge@,
            r@.gpu == gpu@,
            r@.iram == Seq::new(IRAM_SIZE as nat, |_i: int| 0u8),
            r@.zpage == Seq::new(ZERO_PAGE_SIZE as nat, |_i: int| 0u8),
            r@.io == Seq::new(IO_SIZE as nat, |_i: int| 0u8),
            r@.timer == Timer::power_on(),
            r@.ie == Interrupts::from_byte(0),
            r@.dma_src == 0,
            r@.dma_idx == OAM_SIZE,
            r@.buttons == Buttons::released_spec(),
            !r@.input_request,
    {
        let iram = Ram::new(IRAM_SIZE);
        let zpage = Ram::new(ZERO_PAGE_SIZE);
        let io = filled(IO_SIZE, 0);
        let timer = Timer::new();
        let it_enabled = Interrupts::from_register(0);
        Interconnect {
            cartridge,
            iram,
            zpage,
            timer,
            gpu,
            io,
            it_enabled,
            dma_src: 0,
            dma_idx: range_size((OAM_FIRST, OAM_LAST)),
            buttons: Buttons::released(),
            input_request: false,
        }
    }

    /// Resets every peripheral and the dispatcher's own state.
    pub fn reset(&mut self)
        requires
            old(self)@.wf(),
        ensures
            final(self)@ == old(self)@.reset_spec(),
            final(self)@.wf(),
    {
        self.iram.reset();
        self.gpu.reset();
        self.zpage.reset();
        self.timer.reset();
        self.it_enabled = Interrupts::from_register(0);
        self.dma_src = 0;
        self.dma_idx = range_size((OAM_FIRST, OAM_LAST));
        fill(&mut self.io, 0);
        self.input_request = false;
    }

    /// Moves the machine one tick forward: video, then DMA, then timer.
    /// Returns whether the tick completed a frame.
    pub fn step(&mut self) -> (frame_done: bool)
        requires
            old(self)@.wf(),
        ensures
            (final(self)@, frame_done) == old(self)@.ticked(),
            final(self)@.wf(),
    {
        let done = self.gpu.step();
        self.dma_step();
        self.timer.step();
        done
    }

    /// One step of the DMA engine; nothing when no transfer runs.
    pub fn dma_step(&mut self)
        requires
            old(self)@.wf(),
        ensures
            final(self)@ == old(self)@.dma_stepped(),
            final(self)@.wf(),
    {
        let end = range_size((OAM_FIRST, OAM_LAST));
        if self.dma_idx >= end {
            return;
        }
        let b = self.fetch_byte(self.dma_src);
        self.gpu.dma_write_oam(self.dma_idx, b);
        self.dma_src = if self.dma_src == 0xffff { 0 } else { self.dma_src + 1 };
        self.dma_idx = self.dma_idx + 1;
    }

    /// Byte of the peripheral mapped at `addr`.
    pub fn fetch_byte(&self, addr: u16) -> (r: u8)
        requires
            self@.wf(),
        ensures
            r == self@.read(addr),
    {
        if let Some(off) = in_range(addr, (ROM_FIRST, ROM_LAST)) {
            return self.cartridge.rom_byte(off);
        }
        if let Some(off) = in_range(addr, (VRAM_FIRST, VRAM_LAST)) {
            return self.gpu.vram(off);
        }
        if let Some(off) = in_range(addr, (RAM_BANK_FIRST, RAM_BANK_LAST)) {
            return self.cartridge.ram_byte(off);
        }
        if let Some(off) = in_range(addr, (IRAM_FIRST, IRAM_LAST)) {
            return self.iram.byte(off);
        }
        if let Some(off) = in_range(addr, (IRAM_ECHO_FIRST, IRAM_ECHO_LAST)) {
            return self.iram.byte(off);
        }
        if let Some(off) = in_range(addr, (OAM_FIRST, OAM_LAST)) {
            return match self.gpu.get_oam(off) {
                Some(b) => b,
                None => OAM_GARBAGE,
            };
        }
        if let Some(off) = in_range(addr, (IO_FIRST, IO_LAST)) {
            return self.io(off);
        }
        if let Some(off) = in_range(addr, (ZERO_PAGE_FIRST, ZERO_PAGE_LAST)) {
            return self.zpage.byte(off);
        }
        if addr == IEN {
            return self.it_enabled.as_register();
        }
        0
    }

    /// Stores `val` into the peripheral mapped at `addr`.
    pub fn store_byte(&mut self, addr: u16, val: u8)
        requires
            old(self)@.wf(),
        ensures
            final(self)@ == old(self)@.written(addr, val),
            final(self)@.wf(),
    {
        if let Some(off) = in_range(addr, (ROM_FIRST, ROM_LAST)) {
            return self.cartridge.set_rom_byte(off, val);
        }
        if let Some(off) = in_range(addr, (VRAM_FIRST, VRAM_LAST)) {
            return self.gpu.set_vram(off, val);
        }
        if let Some(off) = in_range(addr, (RAM_BANK_FIRST, RAM_BANK_LAST)) {
            return self.cartridge.set_ram_byte(off, val);
        }
        if let Some(off) = in_range(addr, (IRAM_FIRST, IRAM_LAST)) {
            return self.iram.set_byte(off, val);
        }
        if let Some(off) = in_range(addr, (IRAM_ECHO_FIRST, IRAM_ECHO_LAST)) {
            return self.iram.set_byte(off, val);
        }
        if let Some(off) = in_range(addr, (OAM_FIRST, OAM_LAST)) {
            self.gpu.set_oam(off, val);
            return;
        }
        if let Some(off) = in_range(addr, (IO_FIRST, IO_LAST)) {
            return self.set_io(off, val);
        }
        if let Some(off) = in_range(addr, (ZERO_PAGE_FIRST, ZERO_PAGE_LAST)) {
            return self.zpage.set_byte(off, val);
        }
        if addr == IEN {
            self.it_enabled = Interrupts::from_register(val);
        }
    }

    /// Returns the highest-priority pending interrupt and acknowledges it,
    /// clearing its latch; `None` when no enabled source is latched.
    pub fn next_interrupt_ack(&mut self) -> (r: Option<Interrupt>)
        requires
            old(self)@.wf(),
        ensures
            r == old(self)@.pending(),
            final(self)@ == old(self)@.acked(),
            final(self)@.wf(),
    {
        let mut regs = self.gpu.regs();
        if self.it_enabled.vblank && regs.it_vblank {
            regs.it_vblank = false;
            self.gpu.set_regs(regs);
            Some(Interrupt::VBlank)
        } else if self.it_enabled.lcdc && regs.it_lcd {
            regs.it_lcd = false;
            self.gpu.set_regs(regs);
            Some(Interrupt::Lcdc)
        } else if self.it_enabled.timer && self.timer.it {
            self.timer.it = false;
            Some(Interrupt::Timer)
        } else {
            None
        }
    }

    /// Returns the highest-priority pending interrupt without acknowledging
    /// it; `None` when no enabled source is latched.
    pub fn next_interrupt(&self) -> (r: Option<Interrupt>)
        ensures
            r == self@.pending(),
    {
        let regs = self.gpu.regs();
        if self.it_enabled.vblank && regs.it_vblank {
            Some(Interrupt::VBlank)
        } else if self.it_enabled.lcdc && regs.it_lcd {
            Some(Interrupt::Lcdc)
        } else if self.it_enabled.timer && self.timer.it {
            Some(Interrupt::Timer)
        } else {
            None
        }
    }

    /// Value of the I/O register at offset `addr`.
    fn io(&self, addr: u16) -> (r: u8)
        requires
            self@.wf(),
            addr < IO_SIZE,
        ensures
            r == self@.io_read(addr),
    {
        let regs = self.gpu.regs();
        if addr == INPUT {
            self.buttons.matrix(self.io[0])
        } else if addr == DIV {
            self.timer.div()
        } else if addr == TIMA {
            self.timer.counter
        } else if addr == TMA {
            self.timer.modulo
        } else if addr == TAC {
            self.timer.config
        } else if addr == DMA {
            self.dma_addr()
        } else if addr == IF {
            let f = Interrupts {
                vblank: regs.it_vblank,
                lcdc: regs.it_lcd,
                timer: self.timer.it,
                serial: false,
                button: false,
            };
            f.as_register()
        } else if addr == LCD_STAT {
            regs.stat
        } else if addr == LCD_SCY {
            regs.scy
        } else if addr == LCD_SCX {
            regs.scx
        } else if addr == LCDC {
            regs.lcdc
        } else if addr == LCD_LY {
            self.gpu.get_line()
        } else if addr == LCD_LYC {
            regs.lyc
        } else if addr == LCD_BGP {
            regs.bgp
        } else if addr == LCD_OBP0 {
            regs.obp0
        } else if addr == LCD_OBP1 {
            regs.obp1
        } else if addr == LCD_WY {
            regs.wy
        } else if addr == LCD_WX {
            regs.wx
        } else {
            self.io[addr as usize]
        }
    }

    /// Stores `val` into the I/O register at offset `addr`.
    fn set_io(&mut self, addr: u16, val: u8)
        requires
            old(self)@.wf(),
            addr < IO_SIZE,
        ensures
            final(self)@ == old(self)@.io_written(addr, val),
            final(self)@.wf(),
    {
        self.io.set(addr as usize, val);
        if addr == INPUT {
            self.input_request = true;
        } else if addr == DIV {
            self.timer.reset_div();
        } else if addr == TIMA {
            self.timer.counter = val;
        } else if addr == TMA {
            self.timer.modulo = val;
        } else if addr == TAC {
            self.timer.set_config(val);
        } else if addr == DMA {
            self.start_dma(val);
        } else if addr == IF {
            let f = Interrupts::from_register(val);
            let mut regs = self.gpu.regs();
            regs.it_vblank = f.vblank;
            regs.it_lcd = f.lcdc;
            self.gpu.set_regs(regs);
            self.timer.it = f.timer;
        } else if addr == LCDC || addr == LCD_STAT || addr == LCD_SCY || addr == LCD_SCX
            || addr == LCD_LYC || addr == LCD_BGP || addr == LCD_OBP0 || addr == LCD_OBP1
            || addr == LCD_WY || addr == LCD_WX {
            let mut regs = self.gpu.regs();
            if addr == LCDC {
                regs.lcdc = val;
            } else if addr == LCD_STAT {
                regs.stat = val;
            } else if addr == LCD_SCY {
                regs.scy = val;
            } else if addr == LCD_SCX {
                regs.scx = val;
            } else if addr == LCD_LYC {
                regs.lyc = val;
            } else if addr == LCD_BGP {
                regs.bgp = val;
            } else if addr == LCD_OBP0 {
                regs.obp0 = val;
            } else if addr == LCD_OBP1 {
                regs.obp1 = val;
            } else if addr == LCD_WY {
                regs.wy = val;
            } else {
                regs.wx = val;
            }
            self.gpu.set_regs(regs);
        }
    }

    /// Page of the last transfer: the high byte of its source address.
    fn dma_addr(&self) -> (r: u8)
        ensures
            r == (self@.dma_src >> 8) as u8,
    {
        (self.dma_src >> 8) as u8
    }

    /// Starts a transfer from page `src` into OAM and copies its first byte.
    fn start_dma(&mut self, src: u8)
        requires
            old(self)@.wf(),
        ensures
            final(self)@ == old(self)@.dma_started(src),
            final(self)@.wf(),
    {
        self.dma_idx = 0;
        self.dma_src = (src as u16) << 8u16;
        self.dma_step();
    }

    /// The video controller, for inspection.
    pub fn gpu(&self) -> (r: &Gpu)
        ensures
            r@ == self@.gpu,
    {
        &self.gpu
    }

    /// Hands the bus a new snapshot of the controller's buttons.
    pub fn set_buttons(&mut self, buttons: Buttons)
        ensures
            final(self)@ == (BusView { buttons, ..old(self)@ }),
    {
        self.buttons = buttons;
    }

    /// Whether software asked for a fresh snapshot of the buttons since the
    /// last call; clears the request.
    pub fn take_input_request(&mut self) -> (r: bool)
        ensures
            r == old(self)@.input_request,
            final(self)@ == (BusView { input_request: false, ..old(self)@ }),
    {
        let r = self.input_request;
        self.input_request = false;
        r
    }
}

} // verus!
