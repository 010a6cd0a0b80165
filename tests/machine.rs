use gb_rs::cartridge::Cartridge;
use gb_rs::gpu::{Gpu, Mode};
use gb_rs::input::Buttons;
use gb_rs::interrupts::{Interrupt, Interrupts};
use gb_rs::io::Interconnect;
use gb_rs::map::{in_range, range_size};

fn machine() -> Interconnect {
    let rom: Vec<u8> = (0..0x8000u32).map(|i| (i % 251) as u8).collect();
    Interconnect::new(Cartridge::new(rom, 0x2000), Gpu::new())
}

fn oam(m: &Interconnect) -> Vec<u8> {
    (0..160u16).map(|i| m.gpu().peek_oam(i)).collect()
}

#[test]
fn full_active_sweep_completes_one_frame() {
    let mut m = machine();
    m.reset();
    let mut frames = 0;
    for _ in 0..456 * 144 {
        if m.step() {
            frames += 1;
        }
    }
    assert_eq!(frames, 1);
    assert_eq!(m.gpu().get_line(), 144);
    assert_eq!(m.gpu().get_col(), 0);
    assert_eq!(m.gpu().get_mode(), Mode::VBlank);
}

#[test]
fn dma_from_video_memory_copies_the_page() {
    let mut m = machine();
    let pattern: Vec<u8> = (0..160u32).map(|i| (i * 7 + 3) as u8).collect();
    for (i, b) in pattern.iter().enumerate() {
        m.store_byte(0x8000 + i as u16, *b);
    }
    m.store_byte(0xff46, 0x80);
    for _ in 0..160 {
        m.step();
    }
    assert_eq!(oam(&m), pattern);
    assert_eq!(m.fetch_byte(0xff46), 0x80);
}

#[test]
fn dma_copies_one_byte_per_tick() {
    let mut m = machine();
    for i in 0..160u16 {
        m.store_byte(0xc000 + i, (0x10 + i) as u8);
    }
    m.store_byte(0xff46, 0xc0);
    for _ in 0..10 {
        m.step();
    }
    let o = oam(&m);
    for i in 0..11usize {
        assert_eq!(o[i], (0x10 + i) as u8);
    }
    for i in 11..160usize {
        assert_eq!(o[i], 0xca);
    }
    for _ in 0..149 {
        m.step();
    }
    let full = oam(&m);
    for i in 0..160usize {
        assert_eq!(full[i], (0x10 + i) as u8);
    }
    m.store_byte(0xc000, 0x99);
    for _ in 0..300 {
        m.step();
    }
    assert_eq!(oam(&m), full);
}

#[test]
fn dma_just_triggered_copies_first_byte() {
    let mut m = machine();
    m.store_byte(0xd000, 0x42);
    m.store_byte(0xff46, 0xd0);
    let o = oam(&m);
    assert_eq!(o[0], 0x42);
    assert_eq!(o[1], 0xca);
}

#[test]
fn line_compare_latches_lcd_interrupt() {
    let mut m = machine();
    m.reset();
    m.store_byte(0xff45, 100);
    assert_eq!(m.fetch_byte(0xff0f) & 0x02, 0);
    while m.gpu().get_line() != 100 {
        m.step();
    }
    assert_eq!(m.fetch_byte(0xff0f) & 0x02, 0x02);
    m.store_byte(0xffff, 0x02);
    assert_eq!(m.next_interrupt_ack(), Some(Interrupt::Lcdc));
    assert_eq!(m.fetch_byte(0xff0f) & 0x02, 0);
    assert_eq!(m.next_interrupt(), None);
}

#[test]
fn counters_follow_tick_arithmetic() {
    let mut g = Gpu::new();
    for _ in 0..455 {
        g.step();
    }
    assert_eq!((g.get_line(), g.get_col()), (0, 455));
    g.step();
    assert_eq!((g.get_line(), g.get_col()), (1, 0));
    for _ in 0..456 * 153 + 455 {
        g.step();
    }
    assert_eq!((g.get_line(), g.get_col()), (154, 455));
    assert_eq!(g.get_mode(), Mode::VBlank);
    g.step();
    assert_eq!((g.get_line(), g.get_col()), (0, 0));
    let mut h = Gpu::new();
    let t = 3 * 70680 + 12345;
    for _ in 0..t {
        h.step();
    }
    assert_eq!(h.get_line() as u32, (t % 70680) / 456);
    assert_eq!(h.get_col() as u32, t % 456);
}

#[test]
fn frame_end_is_reported_once_per_frame() {
    let mut g = Gpu::new();
    let mut ends = Vec::new();
    for t in 1..=2 * 70680u32 {
        if g.step() {
            ends.push(t);
        }
    }
    assert_eq!(ends, vec![456 * 144, 456 * 144 + 70680]);
}

#[test]
fn mode_follows_position() {
    let mut g = Gpu::new();
    assert_eq!(g.get_mode(), Mode::Prelude);
    for _ in 0..79 {
        g.step();
    }
    assert_eq!(g.get_mode(), Mode::Prelude);
    g.step();
    assert_eq!(g.get_mode(), Mode::Active);
    for _ in 0..92 {
        g.step();
    }
    assert_eq!(g.get_col(), 172);
    assert_eq!(g.get_mode(), Mode::Active);
    g.step();
    assert_eq!(g.get_mode(), Mode::HBlank);
    let mut a = Gpu::new();
    let mut b = Gpu::new();
    for _ in 0..1000 {
        a.step();
    }
    for _ in 0..1000 + 70680 {
        b.step();
    }
    assert_eq!((a.get_line(), a.get_col()), (b.get_line(), b.get_col()));
    assert_eq!(a.get_mode(), b.get_mode());
}

#[test]
fn oam_access_is_gated_by_mode() {
    let mut g = Gpu::new();
    assert_eq!(g.get_oam(0), None);
    assert!(!g.set_oam(0, 1));
    for _ in 0..100 {
        g.step();
    }
    assert_eq!(g.get_mode(), Mode::Active);
    assert_eq!(g.get_oam(3), None);
    assert!(!g.set_oam(3, 1));
    for _ in 0..100 {
        g.step();
    }
    assert_eq!(g.get_mode(), Mode::HBlank);
    assert_eq!(g.get_oam(0), Some(0xca));
    assert!(g.set_oam(0x105, 7));
    assert_eq!(g.get_oam(5), Some(7));
    assert_eq!(g.get_oam(0x205), Some(7));
    assert_eq!(g.get_oam(200), Some(0xff));
    assert!(g.set_oam(200, 9));
    assert_eq!(g.get_oam(200), Some(0xff));
}

#[test]
fn bus_oam_reads_garbage_while_locked() {
    let mut m = machine();
    assert_eq!(m.fetch_byte(0xfe00), 0xff);
    m.store_byte(0xfe00, 0x11);
    assert_eq!(m.gpu().peek_oam(0), 0xca);
    for _ in 0..200 {
        m.step();
    }
    assert_eq!(m.fetch_byte(0xfe00), 0xca);
    m.store_byte(0xfe00, 0x11);
    assert_eq!(m.fetch_byte(0xfe00), 0x11);
}

#[test]
fn interrupts_served_in_priority_order() {
    let mut m = machine();
    m.store_byte(0xffff, 0x07);
    m.store_byte(0xff0f, 0x07);
    assert_eq!(m.next_interrupt(), Some(Interrupt::VBlank));
    assert_eq!(m.next_interrupt(), Some(Interrupt::VBlank));
    assert_eq!(m.fetch_byte(0xff0f), 0x07);
    assert_eq!(m.next_interrupt_ack(), Some(Interrupt::VBlank));
    assert_eq!(m.fetch_byte(0xff0f), 0x06);
    assert_eq!(m.next_interrupt_ack(), Some(Interrupt::Lcdc));
    assert_eq!(m.fetch_byte(0xff0f), 0x04);
    assert_eq!(m.next_interrupt_ack(), Some(Interrupt::Timer));
    assert_eq!(m.fetch_byte(0xff0f), 0x00);
    assert_eq!(m.next_interrupt_ack(), None);
}

#[test]
fn disabled_sources_are_skipped() {
    let mut m = machine();
    m.store_byte(0xff0f, 0x05);
    assert_eq!(m.next_interrupt(), None);
    m.store_byte(0xffff, 0x04);
    assert_eq!(m.next_interrupt_ack(), Some(Interrupt::Timer));
    assert_eq!(m.fetch_byte(0xff0f), 0x01);
    assert_eq!(m.next_interrupt_ack(), None);
}

#[test]
fn interrupt_enable_round_trip() {
    let mut m = machine();
    m.store_byte(0xffff, 0xff);
    assert_eq!(m.fetch_byte(0xffff), 0x1f);
    m.store_byte(0xffff, 0xa5);
    assert_eq!(m.fetch_byte(0xffff), 0x05);
    m.store_byte(0xffff, 0x12);
    assert_eq!(m.fetch_byte(0xffff), 0x12);
}

#[test]
fn register_encoding() {
    let f = Interrupts::from_register(0x15);
    assert!(f.vblank && !f.lcdc && f.timer && !f.serial && f.button);
    assert_eq!(f.as_register(), 0x15);
    assert_eq!(Interrupts::from_register(0xe3).as_register(), 0x03);
}

#[test]
fn ranges() {
    assert_eq!(in_range(0xfe10, (0xfe00, 0xfe9f)), Some(0x10));
    assert_eq!(in_range(0xfea0, (0xfe00, 0xfe9f)), None);
    assert_eq!(in_range(0x0000, (0x0000, 0x7fff)), Some(0));
    assert_eq!(range_size((0xfe00, 0xfe9f)), 160);
    assert_eq!(range_size((0xffff, 0xffff)), 1);
}

#[test]
fn memory_map_routing() {
    let mut m = machine();
    assert_eq!(m.fetch_byte(0x0000), 0);
    assert_eq!(m.fetch_byte(0x0100), (0x100 % 251) as u8);
    m.store_byte(0x0100, 0x55);
    assert_eq!(m.fetch_byte(0x0100), (0x100 % 251) as u8);
    m.store_byte(0xa010, 0x66);
    assert_eq!(m.fetch_byte(0xa010), 0x66);
    m.store_byte(0xc010, 0x77);
    assert_eq!(m.fetch_byte(0xe010), 0x77);
    m.store_byte(0xfd00, 0x78);
    assert_eq!(m.fetch_byte(0xdd00), 0x78);
    m.store_byte(0x9fff, 0x79);
    assert_eq!(m.fetch_byte(0x9fff), 0x79);
    m.store_byte(0xff80, 0x7a);
    assert_eq!(m.fetch_byte(0xff80), 0x7a);
    m.store_byte(0xfffe, 0x7b);
    assert_eq!(m.fetch_byte(0xfffe), 0x7b);
}

#[test]
fn unmapped_addresses_read_zero() {
    let mut m = machine();
    m.store_byte(0xfea0, 0x12);
    assert_eq!(m.fetch_byte(0xfea0), 0);
    m.store_byte(0xff4c, 0x12);
    assert_eq!(m.fetch_byte(0xff4c), 0);
    assert_eq!(m.fetch_byte(0xff7f), 0);
}

#[test]
fn io_storage_and_video_registers() {
    let mut m = machine();
    m.store_byte(0xff01, 0x3c);
    assert_eq!(m.fetch_byte(0xff01), 0x3c);
    for (a, v) in [(0xff40u16, 0x91u8), (0xff41, 0x05), (0xff42, 0x10), (0xff43, 0x20),
                   (0xff45, 0x30), (0xff47, 0xfc), (0xff48, 0xe4), (0xff49, 0x1b),
                   (0xff4a, 0x40), (0xff4b, 0x07)] {
        m.store_byte(a, v);
        assert_eq!(m.fetch_byte(a), v);
    }
    for _ in 0..456 * 3 {
        m.step();
    }
    m.store_byte(0xff44, 99);
    assert_eq!(m.fetch_byte(0xff44), 3);
}

#[test]
fn input_matrix_is_active_low() {
    let mut m = machine();
    let mut b = Buttons::released();
    b.right = true;
    b.start = true;
    m.set_buttons(b);
    assert!(!m.take_input_request());
    m.store_byte(0xff00, 0x20);
    assert!(m.take_input_request());
    assert!(!m.take_input_request());
    assert_eq!(m.fetch_byte(0xff00), 0x0e);
    m.store_byte(0xff00, 0x10);
    assert_eq!(m.fetch_byte(0xff00), 0x07);
    m.store_byte(0xff00, 0x30);
    assert_eq!(m.fetch_byte(0xff00), 0x00);
    m.store_byte(0xff00, 0x00);
    assert_eq!(m.fetch_byte(0xff00), 0x0f);
}

#[test]
fn timer_counts_and_overflows() {
    let mut m = machine();
    m.store_byte(0xff06, 0xf0);
    m.store_byte(0xff05, 0xfe);
    m.store_byte(0xff07, 0x05);
    assert_eq!(m.fetch_byte(0xff07), 0x05);
    for _ in 0..16 {
        m.step();
    }
    assert_eq!(m.fetch_byte(0xff05), 0xff);
    assert_eq!(m.fetch_byte(0xff0f) & 0x04, 0);
    for _ in 0..16 {
        m.step();
    }
    assert_eq!(m.fetch_byte(0xff05), 0xf0);
    assert_eq!(m.fetch_byte(0xff0f) & 0x04, 0x04);
    for _ in 0..512 {
        m.step();
    }
    assert_eq!(m.fetch_byte(0xff04), 2);
    m.store_byte(0xff04, 0x80);
    assert_eq!(m.fetch_byte(0xff04), 0);
}

#[test]
fn reset_restores_power_on_state() {
    let mut m = machine();
    m.store_byte(0xc000, 1);
    m.store_byte(0xff80, 2);
    m.store_byte(0xffff, 0x1f);
    m.store_byte(0xff01, 3);
    m.store_byte(0x8000, 4);
    m.store_byte(0xff46, 0x80);
    for _ in 0..1000 {
        m.step();
    }
    m.reset();
    assert_eq!(m.fetch_byte(0xc000), 0);
    assert_eq!(m.fetch_byte(0xff80), 0);
    assert_eq!(m.fetch_byte(0xffff), 0);
    assert_eq!(m.fetch_byte(0xff01), 0);
    assert_eq!(m.fetch_byte(0xff46), 0);
    assert_eq!(m.fetch_byte(0x8000), 4);
    assert_eq!((m.gpu().get_line(), m.gpu().get_col()), (0, 0));
    assert_eq!(oam(&m), vec![0xca; 160]);
    for _ in 0..200 {
        m.step();
    }
    assert_eq!(oam(&m), vec![0xca; 160]);
}
