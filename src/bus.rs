use vstd::prelude::*;
use crate::cartridge::{CartView, Cartridge};
use crate::dma::Dma;
use crate::interrupts::{Interrupt, pow2_u8};
use crate::joypad::Joypad;
use crate::ppu::{Ppu, PpuView};
use crate::timer::Timer;

verus! {

pub const HRAM_SIZE: usize = 127;
pub const WRAM_SIZE: usize = 8192;

/// Mathematical state of the whole memory bus.
pub ghost struct BusView {
    pub cart: CartView,
    pub ppu: PpuView,
    pub timer: Timer,
    pub dma: Dma,
    pub joypad: Joypad,
    pub wram: Seq<u8>,
    pub hram: Seq<u8>,
    pub ie: u8,
    pub iflag: u8,
}

impl BusView {
    pub open spec fn wf(self) -> bool {
        &&& self.ppu.wf()
        &&& self.cart.rom.len() > 0
        &&& 1 <= self.cart.rom_bank < 32
        &&& self.cart.ram_bank < 4
        &&& self.cart.banking_mode < 2
        &&& self.wram.len() == WRAM_SIZE
        &&& self.hram.len() == HRAM_SIZE
    }

    /// Whether the PPU serves I/O register `addr` (0xFF40..=0xFF4B but DMA).
    pub open spec fn is_ppu_reg(addr: u16) -> bool {
        0xFF40 <= addr <= 0xFF4B && addr != 0xFF46
    }

    pub open spec fn read(self, addr: u16) -> u8 {
        if addr <= 0x7FFF {
            self.cart.read(addr)
        } else if addr <= 0x9FFF {
            self.ppu.read(addr)
        } else if addr <= 0xBFFF {
            self.cart.read(addr)
        } else if addr <= 0xDFFF {
            self.wram[addr - 0xC000]
        } else if addr <= 0xFDFF {
            self.wram[addr - 0xE000]
        } else if addr <= 0xFE9F {
            self.ppu.read(addr)
        } else if addr == 0xFF00 {
            self.joypad.reg_value()
        } else if 0xFF04 <= addr <= 0xFF07 {
            self.timer.read_spec(addr)
        } else if addr == 0xFF0F {
            self.iflag | 0xE0
        } else if Self::is_ppu_reg(addr) {
            self.ppu.read(addr)
        } else if addr == 0xFF46 {
            self.dma.byte
        } else if 0xFF80 <= addr <= 0xFFFE {
            self.hram[addr - 0xFF80]
        } else if addr == 0xFFFF {
            self.ie
        } else {
            0xFF
        }
    }

    /// The bus after the first `n` bytes of an OAM DMA from `base`, copied one
    /// at a time through the bus.
    pub open spec fn dma_upto(self, base: u16, n: nat) -> BusView
        decreases n,
    {
        if n == 0 {
            self
        } else {
            let w = self.dma_upto(base, (n - 1) as nat);
            BusView {
                ppu: PpuView {
                    oam: w.ppu.oam.update(n - 1, w.read((base + n - 1) as u16)),
                    ..w.ppu
                },
                ..w
            }
        }
    }

    pub open spec fn write(self, addr: u16, v: u8) -> BusView {
        if addr <= 0x7FFF {
            BusView { cart: self.cart.write(addr, v), ..self }
        } else if addr <= 0x9FFF {
            BusView { ppu: self.ppu.write(addr, v), ..self }
        } else if addr <= 0xBFFF {
            BusView { cart: self.cart.write(addr, v), ..self }
        } else if addr <= 0xDFFF {
            BusView { wram: self.wram.update(addr - 0xC000, v), ..self }
        } else if addr <= 0xFDFF {
            BusView { wram: self.wram.update(addr - 0xE000, v), ..self }
        } else if addr <= 0xFE9F {
            BusView { ppu: self.ppu.write(addr, v), ..self }
        } else if addr == 0xFF00 {
            BusView {
                joypad: Joypad {
                    select_buttons: v & 0x20 == 0,
                    select_dpad: v & 0x10 == 0,
                    ..self.joypad
                },
                ..self
            }
        } else if 0xFF04 <= addr <= 0xFF07 {
            BusView { timer: self.timer.write_spec(addr, v), ..self }
        } else if addr == 0xFF0F {
            BusView { iflag: v, ..self }
        } else if Self::is_ppu_reg(addr) {
            BusView { ppu: self.ppu.write(addr, v), ..self }
        } else if addr == 0xFF46 {
            BusView {
                dma: Dma { active: true, byte: v, start_delay: 2 },
                ..self
            }.dma_upto((v as u16 * 256) as u16, 160)
        } else if 0xFF80 <= addr <= 0xFFFE {
            BusView { hram: self.hram.update(addr - 0xFF80, v), ..self }
        } else if addr == 0xFFFF {
            BusView { ie: v, ..self }
        } else {
            self
        }
    }

    /// IF after requesting interrupt `i`.
    pub open spec fn requested(self, i: Interrupt) -> BusView {
        BusView { iflag: self.iflag | pow2_u8(i.bit()), ..self }
    }

    /// The bus after `cycles` T-cycles: the timer, then the PPU, each
    /// requesting its interrupts.
    pub open spec fn tick_spec(self, cycles: u8) -> BusView {
        let (t, timer_irq) = self.timer.tick_spec(cycles);
        let b1 = BusView { timer: t, ..self };
        let b2 = if timer_irq {
            b1.requested(Interrupt::Timer)
        } else {
            b1
        };
        let (p, vblank, stat) = b2.ppu.tick_spec(cycles);
        let b3 = BusView { ppu: p, ..b2 };
        let b4 = if vblank {
            b3.requested(Interrupt::VBlank)
        } else {
            b3
        };
        if stat {
            b4.requested(Interrupt::LcdStat)
        } else {
            b4
        }
    }

    pub proof fn lemma_dma_wf(self, base: u16, n: nat)
        requires
            self.wf(),
            n <= 160,
        ensures
            self.dma_upto(base, n).wf(),
            self.dma_upto(base, n) == (BusView { ppu: PpuView { oam: self.dma_upto(base, n).ppu.oam, ..self.ppu }, ..self }),
        decreases n,
    {
        if n > 0 {
            self.lemma_dma_wf(base, (n - 1) as nat);
        }
    }
}

pub struct Bus {
    pub ppu: Ppu,
    pub timer: Timer,
    pub dma: Dma,
    pub joypad: Joypad,
    pub cartridge: Cartridge,
    pub ie_reg: u8,
    pub int_flag: u8,
    pub wram: Vec<u8>,
    pub hram: Vec<u8>,
}

impl Bus {
    pub open spec fn view(&self) -> BusView {
        BusView {
            cart: self.cartridge.view(),
            ppu: self.ppu.view(),
            timer: self.timer,
            dma: self.dma,
            joypad: self.joypad,
            wram: self.wram@,
            hram: self.hram@,
            ie: self.ie_reg,
            iflag: self.int_flag,
        }
    }

    pub open spec fn wf(&self) -> bool {
        self.view().wf()
    }

    pub fn new(cartridge: Cartridge) -> (r: Bus)
        requires
            cartridge.wf(),
        ensures
            r.wf(),
            r.cartridge == cartridge,
            r.ie_reg == 0,
            r.int_flag == 0,
            r.wram@ == Seq::new(WRAM_SIZE as nat, |i: int| 0u8),
            r.hram@ == Seq::new(HRAM_SIZE as nat, |i: int| 0u8),
            r.ppu.view() == Ppu::new_spec(),
            r.timer == (Timer { div: 0, tima: 0, tma: 0, tac: 0 }),
            r.dma == (Dma { active: false, byte: 0, start_delay: 0 }),
    {
        let r = Bus {
            ppu: Ppu::new(),
            timer: Timer::new(),
            dma: Dma::new(),
            joypad: Joypad::new(),
            cartridge,
            ie_reg: 0,
            int_flag: 0,
            wram: vec![0u8; WRAM_SIZE],
            hram: vec![0u8; HRAM_SIZE],
        };
        assert(r.wram@ =~= Seq::new(WRAM_SIZE as nat, |i: int| 0u8));
        assert(r.hram@ =~= Seq::new(HRAM_SIZE as nat, |i: int| 0u8));
        r
    }

    /// Advances the timer and the PPU by `cycles` T-cycles, latching the
    /// interrupts they raise into IF.
    pub fn tick(&mut self, cycles: u8)
        requires
            old(self).wf(),
        ensures
            final(self).wf(),
            final(self).view() == old(self).view().tick_spec(cycles),
            final(self).cartridge.header == old(self).cartridge.header,
    {
        if self.timer.tick(cycles) {
            self.request_interrupt(Interrupt::Timer);
        }
        let (vblank, stat) = self.ppu.tick(cycles);
        if vblank {
            self.request_interrupt(Interrupt::VBlank);
        }
        if stat {
            self.request_interrupt(Interrupt::LcdStat);
        }
    }

    /// Sets the IF bit of `interrupt`.
    pub fn request_interrupt(&mut self, interrupt: Interrupt)
        requires
            old(self).wf(),
        ensures
            final(self).wf(),
            final(self).view() == old(self).view().requested(interrupt),
            final(self).cartridge.header == old(self).cartridge.header,
    {
        self.int_flag = self.int_flag | interrupt.mask();
    }

    pub fn read_byte(&self, address: u16) -> (r: u8)
        requires
            self.wf(),
        ensures
            r == self.view().read(address),
    {
        if address <= 0x7FFF {
            self.cartridge.read(address)
        } else if address <= 0x9FFF {
            self.ppu.read(address)
        } else if address <= 0xBFFF {
            self.cartridge.read(address)
        } else if address <= 0xDFFF {
            self.wram[(address - 0xC000) as usize]
        } else if address <= 0xFDFF {
            self.wram[(address - 0xE000) as usize]
        } else if address <= 0xFE9F {
            self.ppu.read(address)
        } else if address == 0xFF00 {
            self.joypad.read()
        } else if 0xFF04 <= address && address <= 0xFF07 {
            self.timer.read(address)
        } else if address == 0xFF0F {
            self.int_flag | 0xE0
        } else if 0xFF40 <= address && address <= 0xFF4B && address != 0xFF46 {
            self.ppu.read(address)
        } else if address == 0xFF46 {
            self.dma.byte
        } else if 0xFF80 <= address && address <= 0xFFFE {
            self.hram[(address - 0xFF80) as usize]
        } else if address == 0xFFFF {
            self.ie_reg
        } else {
            0xFF
        }
    }

    pub fn write_byte(&mut self, address: u16, byte: u8)
        requires
            old(self).wf(),
        ensures
            final(self).wf(),
            final(self).view() == old(self).view().write(address, byte),
            final(self).cartridge.header == old(self).cartridge.header,
    {
        if address <= 0x7FFF {
            self.cartridge.write(address, byte);
        } else if address <= 0x9FFF {
            self.ppu.write(address, byte);
        } else if address <= 0xBFFF {
            self.cartridge.write(address, byte);
        } else if address <= 0xDFFF {
            self.wram[(address - 0xC000) as usize] = byte;
        } else if address <= 0xFDFF {
            self.wram[(address - 0xE000) as usize] = byte;
        } else if address <= 0xFE9F {
            self.ppu.write(address, byte);
        } else if address == 0xFF00 {
            self.joypad.write(byte);
        } else if 0xFF04 <= address && address <= 0xFF07 {
            self.timer.write(address, byte);
        } else if address == 0xFF0F {
            self.int_flag = byte;
        } else if 0xFF40 <= address && address <= 0xFF4B && address != 0xFF46 {
            self.ppu.write(address, byte);
        } else if address == 0xFF46 {
            self.dma.start(byte);
            self.dma_transfer(byte);
        } else if 0xFF80 <= address && address <= 0xFFFE {
            self.hram[(address - 0xFF80) as usize] = byte;
        } else if address == 0xFFFF {
            self.ie_reg = byte;
        }
    }

    /// Copies 160 bytes from page `value` into OAM, one bus read at a time.
    fn dma_transfer(&mut self, value: u8)
        requires
            old(self).wf(),
        ensures
            final(self).wf(),
            final(self).view() == old(self).view().dma_upto((value as u16 * 256) as u16, 160),
            final(self).cartridge.header == old(self).cartridge.header,
    {
        let ghost b0 = self.view();
        let base: u16 = value as u16 * 256;
        let mut i: u16 = 0;
        while i < 160
            invariant
                i <= 160,
                b0.wf(),
                base == (value as u16 * 256) as u16,
                self.view() == b0.dma_upto(base, i as nat),
                self.cartridge.header == old(self).cartridge.header,
            decreases 160 - i,
        {
            proof {
                b0.lemma_dma_wf(base, i as nat);
            }
            let byte = self.read_byte(base + i);
            self.ppu.oam[i as usize] = byte;
            i = i + 1;
        }
        proof {
            b0.lemma_dma_wf(base, 160);
        }
    }
}

/// A write of any value to DIV clears the divider, and DIV then reads 0.
pub proof fn lemma_div_write_reads_zero(b: BusView, v: u8)
    requires
        b.wf(),
    ensures
        b.write(0xFF04, v).timer.div == 0,
        b.write(0xFF04, v).read(0xFF04) == 0,
{
    crate::timer::lemma_div_write_resets(b.timer, v);
}

/// OAM DMA from a page of work RAM copies its first 160 bytes verbatim.
pub proof fn lemma_dma_copies_wram(b: BusView, page: u8)
    requires
        b.wf(),
        0xC0 <= page <= 0xDF,
    ensures
        forall|i: int|
            0 <= i < 160 ==> #[trigger] b.write(0xFF46, page).ppu.oam[i] == b.wram[(page - 0xC0)
                * 256 + i],
{
    let b1 = BusView { dma: Dma { active: true, byte: page, start_delay: 2 }, ..b };
    let base = (page as u16 * 256) as u16;
    lemma_dma_from_wram(b1, base, 160);
}

proof fn lemma_dma_from_wram(b: BusView, base: u16, n: nat)
    requires
        b.wf(),
        0xC000 <= base,
        base + 160 <= 0xE000,
        n <= 160,
    ensures
        b.dma_upto(base, n).wram == b.wram,
        forall|i: int|
            0 <= i < n ==> #[trigger] b.dma_upto(base, n).ppu.oam[i] == b.wram[base - 0xC000 + i],
    decreases n,
{
    b.lemma_dma_wf(base, n);
    if n > 0 {
        lemma_dma_from_wram(b, base, (n - 1) as nat);
        b.lemma_dma_wf(base, (n - 1) as nat);
    }
}

} // verus!
