use gbcore::bus::Bus;
use gbcore::cartridge::{Cartridge, CartridgeHeader, MbcType};
use gbcore::dma::Dma;
use gbcore::joypad::Joypad;
use gbcore::mmu::Mmu;
use gbcore::timer::Timer;

fn header_rom(size: usize, cart_type: u8, rom_code: u8, ram_code: u8) -> Vec<u8> {
    let mut rom = vec![0u8; size];
    for (i, b) in b"TESTROM".iter().enumerate() {
        rom[0x134 + i] = *b;
    }
    rom[0x147] = cart_type;
    rom[0x148] = rom_code;
    rom[0x149] = ram_code;
    let mut sum: u8 = 0;
    for a in 0x134..=0x14C {
        sum = sum.wrapping_sub(rom[a]).wrapping_sub(1);
    }
    rom[0x14D] = sum;
    rom
}

fn plain_bus() -> Bus {
    Bus::new(Cartridge::new(header_rom(0x8000, 0x00, 0x00, 0x00)).unwrap())
}

#[test]
fn header_fields() {
    let rom = header_rom(0x8000, 0x03, 0x02, 0x03);
    let h = CartridgeHeader::parse(&rom).unwrap();
    assert_eq!(h.title, "TESTROM");
    assert_eq!(h.cart_type, MbcType::MBC1);
    assert_eq!(h.rom_size, 128 * 1024);
    assert_eq!(h.ram_size, 32 * 1024);
    assert_eq!(h.check_sum, rom[0x14D]);
}

#[test]
fn header_size_codes() {
    let mut rom = header_rom(0x8000, 0x13, 0x54, 0x04);
    assert_eq!(CartridgeHeader::parse(&rom).unwrap().cart_type, MbcType::MBC3);
    assert_eq!(CartridgeHeader::parse(&rom).unwrap().rom_size, 1536 * 1024);
    assert_eq!(CartridgeHeader::parse(&rom).unwrap().ram_size, 128 * 1024);
    rom[0x147] = 0x06;
    rom[0x148] = 0x08;
    rom[0x149] = 0x05;
    let h = CartridgeHeader::parse(&rom).unwrap();
    assert_eq!(h.cart_type, MbcType::MBC2);
    assert_eq!(h.rom_size, 8 * 1024 * 1024);
    assert_eq!(h.ram_size, 64 * 1024);
    rom[0x147] = 0x20;
    assert_eq!(CartridgeHeader::parse(&rom).unwrap().cart_type, MbcType::Unknown(0x20));
}

#[test]
fn title_is_trimmed_and_decoded() {
    let mut rom = header_rom(0x8000, 0x00, 0x00, 0x00);
    for a in 0x134..0x143 {
        rom[a] = 0;
    }
    rom[0x136] = b'A';
    rom[0x137] = 0xFF;
    rom[0x138] = b'B';
    let h = CartridgeHeader::parse(&rom).unwrap();
    assert_eq!(h.title, "A\u{FFFD}B");
}

#[test]
fn short_rom_is_rejected() {
    let rom = vec![0u8; 0x14F];
    assert!(CartridgeHeader::parse(&rom).is_err());
    assert!(Cartridge::new(rom).is_err());
    assert!(Cartridge::new(vec![0u8; 0x150]).is_ok());
}

#[test]
fn checksum_valid_and_invalid() {
    let rom = header_rom(0x8000, 0x00, 0x00, 0x00);
    let cart = Cartridge::new(rom.clone()).unwrap();
    assert!(cart.verify_checksum());
    let mut bad = rom;
    bad[0x134] ^= 0x01;
    let cart = Cartridge::new(bad).unwrap();
    assert!(!cart.verify_checksum());
}

#[test]
fn checksum_known_value() {
    let mut rom = vec![0u8; 0x8000];
    rom[0x14D] = 0xE7;
    assert!(Cartridge::new(rom).unwrap().verify_checksum());
}

fn mbc1_cart() -> Cartridge {
    let mut rom = header_rom(0x20000, 0x03, 0x02, 0x03);
    for bank in 0..8 {
        rom[bank * 0x4000 + 0x10] = bank as u8 + 0xA0;
    }
    Cartridge::new(rom).unwrap()
}

#[test]
fn mbc1_bank_zero_selects_bank_one() {
    let mut cart = mbc1_cart();
    cart.write(0x2000, 0x03);
    assert_eq!(cart.read(0x4010), 0xA3);
    cart.write(0x2000, 0x00);
    assert_eq!(cart.read(0x4010), 0xA1);
    cart.write(0x3FFF, 0x20);
    assert_eq!(cart.read(0x4010), 0xA1);
}

#[test]
fn mbc1_bank_masked_to_rom_size() {
    let mut cart = mbc1_cart();
    cart.write(0x2000, 0x0A);
    assert_eq!(cart.read(0x4010), 0xA2);
    assert_eq!(cart.read(0x0010), 0xA0);
}

#[test]
fn mbc1_ram_enable_and_banks() {
    let mut cart = mbc1_cart();
    cart.write(0xA000, 0x55);
    assert_eq!(cart.read(0xA000), 0xFF);
    cart.write(0x0000, 0x0A);
    cart.write(0xA000, 0x55);
    assert_eq!(cart.read(0xA000), 0x55);
    cart.write(0x6000, 0x01);
    cart.write(0x4000, 0x02);
    assert_eq!(cart.read(0xA000), 0x00);
    cart.write(0xA000, 0x66);
    assert_eq!(cart.ram_data[2 * 0x2000], 0x66);
    cart.write(0x0000, 0x00);
    assert_eq!(cart.read(0xA000), 0xFF);
}

#[test]
fn rom_only_reads() {
    let mut rom = header_rom(0x8000, 0x00, 0x00, 0x00);
    rom[0x7FFF] = 0x77;
    let mut cart = Cartridge::new(rom).unwrap();
    assert_eq!(cart.read(0x7FFF), 0x77);
    assert_eq!(cart.read(0xA000), 0xFF);
    cart.write(0x2000, 0x05);
    assert_eq!(cart.read(0x7FFF), 0x77);
}

#[test]
fn div_write_resets_counter() {
    let mut bus = plain_bus();
    for _ in 0..100 {
        bus.tick(200);
    }
    assert_ne!(bus.read_byte(0xFF04), 0);
    bus.write_byte(0xFF04, 0x5A);
    assert_eq!(bus.timer.div, 0);
    assert_eq!(bus.read_byte(0xFF04), 0);
}

#[test]
fn timer_overflow_reloads_tma() {
    let mut bus = plain_bus();
    bus.write_byte(0xFF07, 0x05);
    bus.write_byte(0xFF05, 0xFE);
    bus.write_byte(0xFF06, 0x42);
    bus.int_flag = 0;
    for _ in 0..4 {
        bus.tick(4);
    }
    assert_eq!(bus.read_byte(0xFF05), 0xFF);
    assert_eq!(bus.int_flag & 0x04, 0);
    for _ in 0..4 {
        bus.tick(4);
    }
    assert_eq!(bus.read_byte(0xFF05), 0x42);
    assert_eq!(bus.int_flag & 0x04, 0x04);
}

#[test]
fn timer_disabled_does_not_count() {
    let mut t = Timer::new();
    t.write(0xFF07, 0x01);
    for _ in 0..64 {
        assert!(!t.tick(4));
    }
    assert_eq!(t.read(0xFF05), 0);
    assert_eq!(t.read(0xFF04), 1);
}

#[test]
fn timer_falling_edge_on_selected_bit() {
    let mut t = Timer::new();
    t.write(0xFF07, 0x04);
    t.tick(255);
    t.tick(255);
    t.tick(255);
    t.tick(255);
    assert_eq!(t.read(0xFF05), 0);
    t.tick(4);
    assert_eq!(t.read(0xFF05), 1);
}

#[test]
fn oam_dma_copies_page() {
    let mut bus = plain_bus();
    for i in 0..160u16 {
        bus.write_byte(0xC300 + i, i as u8);
    }
    bus.write_byte(0xFF46, 0xC3);
    for i in 0..160usize {
        assert_eq!(bus.ppu.oam[i], i as u8);
    }
    assert_eq!(bus.read_byte(0xFF46), 0xC3);
    assert!(bus.dma.is_transferring());
}

#[test]
fn bus_ranges() {
    let mut bus = plain_bus();
    bus.write_byte(0xC005, 0x11);
    assert_eq!(bus.read_byte(0xE005), 0x11);
    bus.write_byte(0xE006, 0x22);
    assert_eq!(bus.read_byte(0xC006), 0x22);
    bus.write_byte(0xFF80, 0x33);
    assert_eq!(bus.read_byte(0xFF80), 0x33);
    bus.write_byte(0xFFFF, 0x1F);
    assert_eq!(bus.read_byte(0xFFFF), 0x1F);
    bus.write_byte(0xFF0F, 0x01);
    assert_eq!(bus.read_byte(0xFF0F), 0xE1);
    assert_eq!(bus.read_byte(0xFEA0), 0xFF);
    bus.write_byte(0xFEA0, 0x12);
    assert_eq!(bus.read_byte(0xFEA0), 0xFF);
    bus.write_byte(0x8001, 0x44);
    assert_eq!(bus.read_byte(0x8001), 0x44);
    bus.write_byte(0xFE01, 0x55);
    assert_eq!(bus.read_byte(0xFE01), 0x55);
    bus.write_byte(0xFF44, 0x99);
    assert_eq!(bus.read_byte(0xFF44), 0);
}

#[test]
fn joypad_register() {
    let mut bus = plain_bus();
    assert_eq!(bus.read_byte(0xFF00), 0xFF);
    bus.write_byte(0xFF00, 0x20);
    assert!(bus.joypad.select_dpad && !bus.joypad.select_buttons);
    assert!(bus.joypad.set_button(1, true));
    assert_eq!(bus.read_byte(0xFF00), 0xED);
    assert!(!bus.joypad.set_button(4, true));
    assert_eq!(bus.read_byte(0xFF00), 0xED);
    bus.write_byte(0xFF00, 0x10);
    assert_eq!(bus.read_byte(0xFF00), 0xDE);
}

#[test]
fn joypad_edge_only() {
    let mut j = Joypad::new();
    j.write(0x00);
    assert!(j.set_button(7, true));
    assert!(!j.set_button(7, true));
    assert!(!j.set_button(7, false));
    assert!(!j.set_button(9, true));
    assert_eq!(j.read(), 0xC0 | 0x0F);
}

#[test]
fn dma_register_state() {
    let mut d = Dma::new();
    assert!(!d.is_transferring());
    d.start(0x80);
    assert!(d.is_transferring());
    assert_eq!(d.byte, 0x80);
    assert_eq!(d.start_delay, 2);
}

#[test]
fn flat_memory() {
    let mut m = Mmu::new();
    assert_eq!(m.read(0x1234), 0);
    m.write(0x1234, 0xAB);
    assert_eq!(m.read(0x1234), 0xAB);
    m.write(0xFFFE, 0x01);
    assert_eq!(m.read(0xFFFE), 0x01);
}
