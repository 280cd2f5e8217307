use gbcore::bus::Bus;
use gbcore::cartridge::Cartridge;
use gbcore::cpu::Cpu;
use gbcore::frame::{apply_buttons, run_frame};
use gbcore::interrupts::Interrupt;

fn rom_image(cart_type: u8) -> Vec<u8> {
    let mut rom = vec![0u8; 0x8000];
    rom[0x147] = cart_type;
    rom
}

fn boot_cpu() -> Cpu {
    let cart = Cartridge::new(rom_image(0x00)).unwrap();
    Cpu::new(Bus::new(cart))
}

/// A processor whose program sits in work RAM at 0xC000.
fn cpu_running(program: &[u8]) -> Cpu {
    let mut cpu = boot_cpu();
    for (i, b) in program.iter().enumerate() {
        cpu.bus.write_byte(0xC000 + i as u16, *b);
    }
    cpu.pc = 0xC000;
    cpu
}

#[test]
fn boot_state() {
    let cpu = boot_cpu();
    assert_eq!(cpu.pc, 0x0100);
    assert_eq!(cpu.sp, 0xFFFE);
    assert_eq!(cpu.get_af(), 0x01B0);
    assert_eq!(cpu.get_bc(), 0x0013);
    assert_eq!(cpu.get_de(), 0x00D8);
    assert_eq!(cpu.get_hl(), 0x014D);
    assert!(!cpu.ime);
    assert!(!cpu.is_sleeping);
}

#[test]
fn xor_a_self_zero() {
    let mut cpu = cpu_running(&[0xAF]);
    cpu.a = 0x5A;
    let cycles = cpu.step();
    assert_eq!(cpu.a, 0);
    assert_eq!(cpu.f, 0x80);
    assert_eq!(cpu.pc, 0xC001);
    assert_eq!(cycles, 4);
}

#[test]
fn xor_a_from_rom_at_boot_pc() {
    let mut rom = rom_image(0x00);
    rom[0x100] = 0xAF;
    let mut cpu = Cpu::new(Bus::new(Cartridge::new(rom).unwrap()));
    cpu.a = 0x5A;
    assert_eq!(cpu.step(), 4);
    assert_eq!(cpu.a, 0);
    assert_eq!(cpu.f, 0x80);
    assert_eq!(cpu.pc, 0x0101);
}

fn jr_nz_cpu(z: bool) -> Cpu {
    let mut rom = rom_image(0x00);
    rom[0x200] = 0x20;
    rom[0x201] = 0x05;
    let mut cpu = Cpu::new(Bus::new(Cartridge::new(rom).unwrap()));
    cpu.pc = 0x0200;
    cpu.f = if z { 0x80 } else { 0x00 };
    cpu
}

#[test]
fn jr_nz_taken() {
    let mut cpu = jr_nz_cpu(false);
    assert_eq!(cpu.step(), 12);
    assert_eq!(cpu.pc, 0x0207);
}

#[test]
fn jr_nz_not_taken() {
    let mut cpu = jr_nz_cpu(true);
    assert_eq!(cpu.step(), 8);
    assert_eq!(cpu.pc, 0x0202);
}

#[test]
fn jr_backwards() {
    let mut cpu = cpu_running(&[0x18, 0xFE]);
    assert_eq!(cpu.step(), 12);
    assert_eq!(cpu.pc, 0xC000);
}

#[test]
fn push_pop_round_trip() {
    let mut cpu = cpu_running(&[0xC5, 0xC1, 0xD5, 0xD1]);
    cpu.sp = 0xDFF0;
    cpu.set_bc(0xBEEF);
    cpu.set_de(0x1234);
    assert_eq!(cpu.step(), 16);
    assert_eq!(cpu.sp, 0xDFEE);
    cpu.set_bc(0);
    assert_eq!(cpu.step(), 12);
    assert_eq!(cpu.get_bc(), 0xBEEF);
    assert_eq!(cpu.sp, 0xDFF0);
    cpu.step();
    cpu.step();
    assert_eq!(cpu.get_de(), 0x1234);
    assert_eq!(cpu.sp, 0xDFF0);
}

#[test]
fn push_writes_high_byte_above_low_byte() {
    let mut cpu = cpu_running(&[0xE5]);
    cpu.sp = 0xFFFE;
    cpu.set_hl(0xA1B2);
    cpu.step();
    assert_eq!(cpu.bus.read_byte(0xFFFD), 0xA1);
    assert_eq!(cpu.bus.read_byte(0xFFFC), 0xB2);
}

#[test]
fn pop_af_clears_low_nibble() {
    let mut cpu = cpu_running(&[0xC5, 0xF1]);
    cpu.sp = 0xDFF0;
    cpu.set_bc(0x12FF);
    cpu.step();
    cpu.step();
    assert_eq!(cpu.a, 0x12);
    assert_eq!(cpu.f, 0xF0);
    assert_eq!(cpu.f & 0x0F, 0);
}

#[test]
fn swap_twice_is_identity() {
    let mut cpu = cpu_running(&[0xCB, 0x37, 0xCB, 0x37]);
    cpu.a = 0x3C;
    assert_eq!(cpu.step(), 8);
    assert_eq!(cpu.a, 0xC3);
    cpu.step();
    assert_eq!(cpu.a, 0x3C);
}

#[test]
fn swap_zero_sets_z_only() {
    let mut cpu = cpu_running(&[0xCB, 0x37]);
    cpu.a = 0;
    cpu.f = 0x70;
    cpu.step();
    assert_eq!(cpu.f, 0x80);
}

#[test]
fn rlc_undoes_rrc() {
    let mut cpu = cpu_running(&[0xCB, 0x0F, 0xCB, 0x07]);
    cpu.a = 0x81;
    cpu.step();
    assert_eq!(cpu.a, 0xC0);
    assert!(cpu.get_c());
    cpu.step();
    assert_eq!(cpu.a, 0x81);
}

#[test]
fn cb_bit_changes_only_flags() {
    let mut cpu = cpu_running(&[0xCB, 0x7F, 0xCB, 0x47]);
    cpu.a = 0x01;
    cpu.f = 0x50;
    assert_eq!(cpu.step(), 8);
    assert_eq!(cpu.a, 0x01);
    assert_eq!(cpu.f, 0xB0);
    cpu.step();
    assert_eq!(cpu.a, 0x01);
    assert_eq!(cpu.f, 0x30);
}

#[test]
fn cb_bit_hl_takes_12_cycles() {
    let mut cpu = cpu_running(&[0xCB, 0x46, 0xCB, 0xC6, 0xCB, 0x86]);
    cpu.set_hl(0xC100);
    cpu.bus.write_byte(0xC100, 0x00);
    assert_eq!(cpu.step(), 12);
    assert!(cpu.get_z());
    assert_eq!(cpu.step(), 16);
    assert_eq!(cpu.bus.read_byte(0xC100), 0x01);
    cpu.step();
    assert_eq!(cpu.bus.read_byte(0xC100), 0x00);
}

#[test]
fn add_sets_half_carry_and_carry() {
    let mut cpu = cpu_running(&[0x80, 0xC6, 0x01]);
    cpu.a = 0x8F;
    cpu.b = 0x81;
    assert_eq!(cpu.step(), 4);
    assert_eq!(cpu.a, 0x10);
    assert_eq!(cpu.f, 0x30);
    assert_eq!(cpu.step(), 8);
    assert_eq!(cpu.a, 0x11);
    assert_eq!(cpu.f, 0x00);
}

#[test]
fn adc_and_sbc_use_carry() {
    let mut cpu = cpu_running(&[0xCE, 0x00, 0xDE, 0x01]);
    cpu.a = 0xFF;
    cpu.f = 0x10;
    cpu.step();
    assert_eq!(cpu.a, 0x00);
    assert_eq!(cpu.f, 0xB0);
    cpu.step();
    assert_eq!(cpu.a, 0xFE);
    assert_eq!(cpu.f, 0x70);
}

#[test]
fn sub_and_cp() {
    let mut cpu = cpu_running(&[0x90, 0xFE, 0x20]);
    cpu.a = 0x10;
    cpu.b = 0x01;
    cpu.step();
    assert_eq!(cpu.a, 0x0F);
    assert_eq!(cpu.f, 0x60);
    cpu.step();
    assert_eq!(cpu.a, 0x0F);
    assert_eq!(cpu.f, 0x50);
}

#[test]
fn and_or_flags() {
    let mut cpu = cpu_running(&[0xE6, 0x0F, 0xF6, 0x00]);
    cpu.a = 0xF0;
    cpu.step();
    assert_eq!(cpu.a, 0);
    assert_eq!(cpu.f, 0xA0);
    cpu.step();
    assert_eq!(cpu.f, 0x80);
}

#[test]
fn inc_dec_keep_carry() {
    let mut cpu = cpu_running(&[0x04, 0x05, 0x05]);
    cpu.b = 0x0F;
    cpu.f = 0x10;
    cpu.step();
    assert_eq!(cpu.b, 0x10);
    assert_eq!(cpu.f, 0x30);
    cpu.step();
    assert_eq!(cpu.b, 0x0F);
    assert_eq!(cpu.f, 0x70);
    cpu.b = 1;
    cpu.step();
    assert_eq!(cpu.b, 0);
    assert_eq!(cpu.f, 0xD0);
}

#[test]
fn daa_after_bcd_add() {
    let mut cpu = cpu_running(&[0xC6, 0x38, 0x27]);
    cpu.a = 0x45;
    cpu.f = 0;
    cpu.step();
    assert_eq!(cpu.a, 0x7D);
    cpu.step();
    assert_eq!(cpu.a, 0x83);
    assert_eq!(cpu.f, 0x00);
}

#[test]
fn rla_clears_zero_flag() {
    let mut cpu = cpu_running(&[0x17]);
    cpu.a = 0x80;
    cpu.f = 0x00;
    cpu.step();
    assert_eq!(cpu.a, 0x00);
    assert_eq!(cpu.f, 0x10);
}

#[test]
fn ld_registers_and_memory() {
    let mut cpu = cpu_running(&[0x21, 0x00, 0xC1, 0x36, 0x99, 0x7E, 0x22, 0x2A]);
    assert_eq!(cpu.step(), 12);
    assert_eq!(cpu.get_hl(), 0xC100);
    assert_eq!(cpu.step(), 12);
    assert_eq!(cpu.bus.read_byte(0xC100), 0x99);
    assert_eq!(cpu.step(), 8);
    assert_eq!(cpu.a, 0x99);
    cpu.step();
    assert_eq!(cpu.get_hl(), 0xC101);
    assert_eq!(cpu.bus.read_byte(0xC100), 0x99);
    cpu.bus.write_byte(0xC101, 0x42);
    cpu.step();
    assert_eq!(cpu.a, 0x42);
    assert_eq!(cpu.get_hl(), 0xC102);
}

#[test]
fn add_hl_keeps_zero_flag() {
    let mut cpu = cpu_running(&[0x09]);
    cpu.set_hl(0x0FFF);
    cpu.set_bc(0x0001);
    cpu.f = 0x80;
    assert_eq!(cpu.step(), 8);
    assert_eq!(cpu.get_hl(), 0x1000);
    assert_eq!(cpu.f, 0xA0);
}

#[test]
fn add_sp_signed_offset() {
    let mut cpu = cpu_running(&[0xE8, 0xFF, 0xF8, 0x02]);
    cpu.sp = 0x1000;
    assert_eq!(cpu.step(), 16);
    assert_eq!(cpu.sp, 0x0FFF);
    assert_eq!(cpu.f, 0x00);
    assert_eq!(cpu.step(), 12);
    assert_eq!(cpu.get_hl(), 0x1001);
}

#[test]
fn call_and_ret() {
    let mut cpu = cpu_running(&[0xCD, 0x10, 0xC0]);
    cpu.bus.write_byte(0xC010, 0xC9);
    cpu.sp = 0xDFF0;
    assert_eq!(cpu.step(), 24);
    assert_eq!(cpu.pc, 0xC010);
    assert_eq!(cpu.sp, 0xDFEE);
    assert_eq!(cpu.step(), 16);
    assert_eq!(cpu.pc, 0xC003);
    assert_eq!(cpu.sp, 0xDFF0);
}

#[test]
fn rst_jumps_to_vector() {
    let mut cpu = cpu_running(&[0xEF]);
    cpu.sp = 0xDFF0;
    assert_eq!(cpu.step(), 16);
    assert_eq!(cpu.pc, 0x0028);
    assert_eq!(cpu.bus.read_byte(0xDFEE), 0x01);
    assert_eq!(cpu.bus.read_byte(0xDFEF), 0xC0);
}

#[test]
fn halt_then_idle() {
    let mut cpu = cpu_running(&[0x76, 0x00]);
    assert_eq!(cpu.step(), 4);
    assert!(cpu.is_sleeping);
    assert_eq!(cpu.step(), 4);
    assert_eq!(cpu.pc, 0xC001);
}

#[test]
fn undefined_opcode_costs_four() {
    let mut cpu = cpu_running(&[0xD3]);
    assert_eq!(cpu.step(), 4);
    assert_eq!(cpu.pc, 0xC001);
}

#[test]
fn interrupt_dispatch() {
    let mut cpu = cpu_running(&[0x00]);
    cpu.sp = 0xDFF0;
    cpu.ime = true;
    cpu.bus.ie_reg = 0x05;
    cpu.bus.request_interrupt(Interrupt::Timer);
    cpu.bus.request_interrupt(Interrupt::VBlank);
    cpu.check_interrupts();
    assert_eq!(cpu.pc, 0x0040);
    assert!(!cpu.ime);
    assert_eq!(cpu.bus.int_flag, 0x04);
    assert_eq!(cpu.sp, 0xDFEE);
    assert_eq!(cpu.bus.read_byte(0xDFEE), 0x00);
    assert_eq!(cpu.bus.read_byte(0xDFEF), 0xC0);
}

#[test]
fn pending_interrupt_wakes_without_ime() {
    let mut cpu = cpu_running(&[0x76]);
    cpu.step();
    assert!(cpu.is_sleeping);
    cpu.bus.ie_reg = 0x10;
    cpu.bus.request_interrupt(Interrupt::Joypad);
    cpu.check_interrupts();
    assert!(!cpu.is_sleeping);
    assert_eq!(cpu.pc, 0xC001);
    assert_eq!(cpu.bus.int_flag, 0x10);
}

#[test]
fn reti_enables_interrupts() {
    let mut cpu = cpu_running(&[0xC5, 0xD9]);
    cpu.sp = 0xDFF0;
    cpu.set_bc(0xC123);
    cpu.step();
    cpu.step();
    assert_eq!(cpu.pc, 0xC123);
    assert!(cpu.ime);
}

#[test]
fn flag_setters() {
    let mut cpu = boot_cpu();
    cpu.f = 0;
    cpu.set_z(true);
    cpu.set_c(true);
    assert_eq!(cpu.f, 0x90);
    cpu.set_n(true);
    cpu.set_h(true);
    cpu.set_z(false);
    assert_eq!(cpu.f, 0x70);
    assert!(cpu.get_n() && cpu.get_h() && cpu.get_c() && !cpu.get_z());
    cpu.set_af(0x12FF);
    assert_eq!(cpu.get_af(), 0x12F0);
}

#[test]
fn handler_addresses_and_masks() {
    let all = Interrupt::iterate();
    let vectors: Vec<u16> = all.iter().map(|i| i.handler_address()).collect();
    let masks: Vec<u8> = all.iter().map(|i| i.mask()).collect();
    assert_eq!(vectors, vec![0x40, 0x48, 0x50, 0x58, 0x60]);
    assert_eq!(masks, vec![0x01, 0x02, 0x04, 0x08, 0x10]);
}

#[test]
fn ei_takes_effect_after_next_instruction() {
    let mut cpu = cpu_running(&[0xFB, 0x00, 0x00]);
    cpu.sp = 0xDFF0;
    cpu.bus.ie_reg = 0x01;
    cpu.bus.request_interrupt(Interrupt::VBlank);
    cpu.step();
    assert!(!cpu.ime);
    cpu.check_interrupts();
    assert_eq!(cpu.pc, 0xC001);
    cpu.step();
    assert!(cpu.ime);
    cpu.check_interrupts();
    assert_eq!(cpu.pc, 0x0040);
}

#[test]
fn di_right_after_ei_cancels_it() {
    let mut cpu = cpu_running(&[0xFB, 0xF3, 0x00]);
    cpu.step();
    cpu.step();
    assert!(!cpu.ime);
    cpu.step();
    assert!(!cpu.ime);
}

#[test]
fn run_frame_spends_one_frame() {
    let mut cpu = cpu_running(&[0x18, 0xFE]);
    let cycles = run_frame(&mut cpu);
    assert_eq!(cycles, 70224);
    assert_eq!(cpu.pc, 0xC000);
    assert_eq!(cpu.bus.ppu.ly, 0);
    assert_eq!(cpu.bus.int_flag & 0x01, 0x01);
}

#[test]
fn run_frame_counts_dispatch() {
    let mut cpu = cpu_running(&[0x00]);
    cpu.sp = 0xDFF0;
    cpu.ime = true;
    cpu.bus.ie_reg = 0x01;
    cpu.bus.request_interrupt(Interrupt::VBlank);
    let cycles = run_frame(&mut cpu);
    assert!(cycles >= 70224 && cycles < 70224 + 44);
    assert!(!cpu.ime);
    assert_eq!(cpu.bus.read_byte(0xDFEE), 0x01);
    assert_eq!(cpu.bus.read_byte(0xDFEF), 0xC0);
}

#[test]
fn buttons_reach_joypad_register() {
    let mut cpu = boot_cpu();
    cpu.bus.write_byte(0xFF00, 0x10);
    cpu.bus.int_flag = 0;
    apply_buttons(&mut cpu.bus, 0x10);
    assert!(cpu.bus.joypad.a);
    assert_eq!(cpu.bus.int_flag, 0x10);
    assert_eq!(cpu.bus.read_byte(0xFF00), 0xDE);
    cpu.bus.int_flag = 0;
    apply_buttons(&mut cpu.bus, 0x11);
    assert!(cpu.bus.joypad.right);
    assert_eq!(cpu.bus.int_flag, 0);
    apply_buttons(&mut cpu.bus, 0x00);
    assert!(!cpu.bus.joypad.a && !cpu.bus.joypad.right);
    assert_eq!(cpu.bus.read_byte(0xFF00), 0xDF);
}
