use gbcore::bus::Bus;
use gbcore::cartridge::Cartridge;
use gbcore::ppu::{Ppu, PpuMode};

fn plain_bus() -> Bus {
    let mut rom = vec![0u8; 0x8000];
    rom[0x147] = 0x00;
    Bus::new(Cartridge::new(rom).unwrap())
}

#[test]
fn vblank_irq_rises_once_at_line_144() {
    let mut bus = plain_bus();
    let mut rises = 0;
    let mut prev = bus.int_flag & 1;
    let mut total: u32 = 0;
    while total < 65664 {
        bus.tick(4);
        total += 4;
        let now = bus.int_flag & 1;
        if prev == 0 && now == 1 {
            rises += 1;
        }
        prev = now;
    }
    assert_eq!(rises, 1);
    assert_eq!(bus.ppu.ly, 144);
    assert_eq!(bus.ppu.mode, PpuMode::VBlank);
}

#[test]
fn one_frame_wraps_ly_once() {
    let mut bus = plain_bus();
    let mut wraps = 0;
    let mut vblanks = 0;
    let mut total: u32 = 0;
    while total < 70224 {
        let before = bus.ppu.ly;
        bus.tick(4);
        total += 4;
        if bus.int_flag & 1 != 0 {
            vblanks += 1;
            bus.int_flag &= !1;
        }
        if before != 0 && bus.ppu.ly == 0 {
            wraps += 1;
        }
    }
    assert_eq!(wraps, 1);
    assert_eq!(vblanks, 1);
    assert_eq!(bus.ppu.ly, 0);
}

#[test]
fn mode_invariants_hold_while_ticking() {
    let mut p = Ppu::new();
    for i in 0..80000u32 {
        p.tick((i % 6 * 4 + 4) as u8);
        assert!(p.ly < 154);
        if p.ly >= 144 {
            assert_eq!(p.mode, PpuMode::VBlank);
        }
        if p.ly < 144 && p.cycle_accumulator >= 252 {
            assert_eq!(p.mode, PpuMode::HBlank);
        }
    }
}

#[test]
fn mode_sequence_of_a_line() {
    let mut p = Ppu::new();
    p.tick(76);
    assert_eq!(p.mode, PpuMode::OamSearch);
    p.tick(8);
    assert_eq!(p.mode, PpuMode::PixelTransfer);
    p.tick(200);
    assert_eq!(p.mode, PpuMode::HBlank);
    assert_eq!(p.read(0xFF41) & 0x03, 0);
    p.tick(200);
    assert_eq!(p.ly, 1);
    assert_eq!(p.mode, PpuMode::OamSearch);
}

#[test]
fn stat_interrupt_is_edge_triggered() {
    let mut p = Ppu::new();
    p.write(0xFF41, 0x08);
    let (_, stat) = p.tick(252);
    assert!(stat);
    let (_, stat) = p.tick(4);
    assert!(!stat);
}

#[test]
fn lyc_coincidence_in_stat() {
    let mut p = Ppu::new();
    assert_eq!(p.read(0xFF41) & 0x04, 0x04);
    p.write(0xFF45, 5);
    assert_eq!(p.read(0xFF41) & 0x04, 0);
    assert_eq!(p.read(0xFF41) & 0x80, 0x80);
}

#[test]
fn lcd_off_resets_line() {
    let mut p = Ppu::new();
    p.tick(252);
    p.tick(252);
    assert_eq!(p.ly, 1);
    p.write(0xFF40, 0x11);
    assert_eq!(p.ly, 0);
    assert_eq!(p.mode, PpuMode::HBlank);
    assert_eq!(p.cycle_accumulator, 0);
    assert_eq!(p.tick(200), (false, false));
    assert_eq!(p.cycle_accumulator, 0);
    p.draw_scanline();
    assert_eq!(p.buffer[0], 0xFFFFFFFF);
    assert_eq!(p.buffer[159], 0xFFFFFFFF);
}

#[test]
fn background_pixels_use_palette() {
    let mut p = Ppu::new();
    // tile 1, row 0: low plane 0x80, high plane 0x80 -> pixel 0 has id 3
    p.write(0x8010, 0x80);
    p.write(0x8011, 0x80);
    p.write(0x9800, 0x01);
    p.bgp = 0xE4;
    p.draw_scanline();
    assert_eq!(p.buffer[0], 0xFF081820);
    assert_eq!(p.buffer[1], 0xFFE0F8D0);
    assert_eq!(p.buffer[8], 0xFFE0F8D0);
}

#[test]
fn background_signed_tile_data() {
    let mut p = Ppu::new();
    p.lcdc = 0x81;
    // tile -1 in 0x8800 mode lives at 0x8FF0
    p.write(0x8FF0, 0x40);
    p.write(0x9800, 0xFF);
    p.bgp = 0xE4;
    p.draw_scanline();
    assert_eq!(p.buffer[1], 0xFF88C070);
    assert_eq!(p.buffer[0], 0xFFE0F8D0);
}

#[test]
fn sprite_drawn_over_background() {
    let mut p = Ppu::new();
    p.lcdc = 0x93;
    p.write(0x8020, 0xFF);
    p.write(0x8021, 0x00);
    p.write(0xFE00, 16);
    p.write(0xFE01, 8 + 10);
    p.write(0xFE02, 2);
    p.write(0xFE03, 0x00);
    p.obp0 = 0xE4;
    p.draw_scanline();
    assert_eq!(p.buffer[9], 0xFFE0F8D0);
    assert_eq!(p.buffer[10], 0xFF88C070);
    assert_eq!(p.buffer[17], 0xFF88C070);
    assert_eq!(p.buffer[18], 0xFFE0F8D0);
}

#[test]
fn sprite_behind_nonzero_background_is_hidden() {
    let mut p = Ppu::new();
    p.lcdc = 0x93;
    p.write(0x8000, 0xFF);
    p.write(0x8020, 0xFF);
    p.write(0x8021, 0xFF);
    p.write(0xFE00, 16);
    p.write(0xFE01, 8);
    p.write(0xFE02, 2);
    p.write(0xFE03, 0x80);
    p.bgp = 0xE4;
    p.obp0 = 0xE4;
    p.draw_scanline();
    assert_eq!(p.buffer[0], 0xFF88C070);
    p.write(0x8000, 0x00);
    p.draw_scanline();
    assert_eq!(p.buffer[0], 0xFF081820);
}

#[test]
fn lcdc_getters() {
    let mut p = Ppu::new();
    p.lcdc = 0xFF;
    assert!(p.is_lcd_enabled() && p.is_window_enabled() && p.obj_size());
    assert!(p.obj_enabled() && p.bg_window_enabled());
    assert_eq!(p.window_tile_map_area(), 0x9C00);
    assert_eq!(p.bg_tile_map_area(), 0x9C00);
    assert_eq!(p.tile_data_area(), 0x8000);
    p.lcdc = 0x00;
    assert_eq!(p.window_tile_map_area(), 0x9800);
    assert_eq!(p.bg_tile_map_area(), 0x9800);
    assert_eq!(p.tile_data_area(), 0x8800);
    assert!(!p.is_lcd_enabled() && !p.obj_enabled());
}
