//! Properties of the machine that relate several operations.
use vstd::prelude::*;
use crate::gpu::{GpuView, VideoRegs, OAM_SIZE};
use crate::interrupts::{lemma_register_round_trip, Interrupt, Interrupts};
use crate::io::BusView;
use crate::map::{IEN, OAM_FIRST};
use crate::timer::Timer;

verus! {

/// Address of the DMA trigger register.
pub const DMA_REGISTER: u16 = 0xff46;

/// Reads below the OAM window depend on the cartridge, the video memory and
/// the internal RAM alone.
proof fn lemma_low_read_stable(a: BusView, b: BusView, addr: u16)
    requires
        a.cart == b.cart,
        a.gpu.vram == b.gpu.vram,
        a.iram == b.iram,
        addr < OAM_FIRST,
    ensures
        a.read(addr) == b.read(addr),
{
}

/// The state of a transfer from page `page` of `m` after `k` ticks.
proof fn lemma_dma_progress(m: BusView, page: u8, k: nat)
    requires
        m.wf(),
        page < 0xfe,
        k < OAM_SIZE,
    ensures
        ({
            let s = m.written(DMA_REGISTER, page).ticks(k);
            &&& s.wf()
            &&& s.cart == m.cart
            &&& s.gpu.vram == m.gpu.vram
            &&& s.iram == m.iram
            &&& s.dma_idx == k + 1
            &&& s.dma_src == page as int * 256 + k + 1
            &&& forall|i: int| 0 <= i <= k ==> s.gpu.oam[i] == m.read((page as int * 256 + i) as u16)
            &&& forall|i: int| k < i < OAM_SIZE ==> s.gpu.oam[i] == m.gpu.oam[i]
        }),
    decreases k,
{
    let t = m.written(DMA_REGISTER, page);
    if k == 0 {
        assert((page as u16) << 8u16 == page as u16 * 256) by (bit_vector)
            requires page < 0xfe;
        let s0 = BusView { dma_idx: 0, dma_src: (page as u16) << 8u16, io: m.io.update(0x46, page), ..m };
        lemma_low_read_stable(s0, m, (page as u16) << 8u16);
        assert(t.ticks(0) == t);
    } else {
        lemma_dma_progress(m, page, (k - 1) as nat);
        let p = t.ticks((k - 1) as nat);
        let g = p.gpu.stepped().0;
        let q = BusView { gpu: g, ..p };
        lemma_low_read_stable(q, m, p.dma_src);
        let s = t.ticks(k);
        assert(s == p.ticked().0);
        assert forall|i: int| 0 <= i <= k implies s.gpu.oam[i] == m.read((page as int * 256 + i) as u16) by {
            if i < k {
                assert(s.gpu.oam[i] == p.gpu.oam[i]);
            }
        }
    }
}

/// Writing page `page` to the DMA register starts a transfer that copies its
/// first byte at once and one more byte at each tick: after the write and `k`
/// ticks, with `k` below 160, the first `k + 1` bytes of OAM hold the first
/// `k + 1` bytes of the page and the rest of OAM is as before the write. The
/// page lies below the OAM window, so no tick changes what is copied.
pub proof fn lemma_dma_copies_one_byte_per_tick(m: BusView, page: u8, k: nat)
    requires
        m.wf(),
        page < 0xfe,
        k < OAM_SIZE,
    ensures
        ({
            let s = m.written(DMA_REGISTER, page).ticks(k);
            &&& s.dma_idx == k + 1
            &&& forall|i: int| 0 <= i <= k ==> s.gpu.oam[i] == m.read((page as int * 256 + i) as u16)
            &&& forall|i: int| k < i < OAM_SIZE ==> s.gpu.oam[i] == m.gpu.oam[i]
        }),
{
    lemma_dma_progress(m, page, k);
}

/// Once a transfer has copied its 160 bytes, a tick leaves OAM as it is.
pub proof fn lemma_finished_dma_keeps_oam(m: BusView)
    requires
        m.wf(),
        m.dma_idx >= OAM_SIZE,
    ensures
        m.ticked().0.gpu.oam == m.gpu.oam,
        m.ticked().0.dma_idx == m.dma_idx,
{
}

/// Interrupts are served in the fixed order vblank, LCD controller, timer:
/// the pending source is enabled and latched, and no source of higher
/// priority is.
pub proof fn lemma_interrupt_priority(m: BusView)
    ensures
        m.pending() == Some(Interrupt::VBlank) <==> (m.ie.vblank && m.flags().vblank),
        m.pending() == Some(Interrupt::Lcdc) <==> (!(m.ie.vblank && m.flags().vblank) && m.ie.lcdc
            && m.flags().lcdc),
        m.pending() == Some(Interrupt::Timer) <==> (!(m.ie.vblank && m.flags().vblank) && !(m.ie.lcdc
            && m.flags().lcdc) && m.ie.timer && m.flags().timer),
        m.pending() is None <==> (!(m.ie.vblank && m.flags().vblank) && !(m.ie.lcdc
            && m.flags().lcdc) && !(m.ie.timer && m.flags().timer)),
{
}

/// Acknowledging clears the latch of the source returned and no other, and
/// changes nothing else.
pub proof fn lemma_ack_clears_only_winner(m: BusView)
    ensures
        ({
            let a = m.acked();
            let f = m.flags();
            &&& a.flags() == match m.pending() {
                Some(Interrupt::VBlank) => Interrupts { vblank: false, ..f },
                Some(Interrupt::Lcdc) => Interrupts { lcdc: false, ..f },
                Some(Interrupt::Timer) => Interrupts { timer: false, ..f },
                None => f,
            }
            &&& a == (BusView {
                gpu: GpuView {
                    regs: VideoRegs {
                        it_vblank: a.flags().vblank,
                        it_lcd: a.flags().lcdc,
                        ..m.gpu.regs
                    },
                    ..m.gpu
                },
                timer: Timer { it: a.flags().timer, ..m.timer },
                ..m
            })
        }),
{
}

/// Writing byte `b` to the interrupt-enable register and reading it back
/// gives `b` masked to the five defined bits.
pub proof fn lemma_interrupt_enable_round_trip(m: BusView, b: u8)
    requires
        m.wf(),
    ensures
        m.written(IEN, b).read(IEN) == b & 0x1f,
{
    lemma_register_round_trip(b);
}

} // verus!
