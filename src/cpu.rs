use vstd::prelude::*;
use crate::alu::{
    alu, cf, daa8, dec8, hf, inc8, lemma_mk_flags, mk_flags, nf, shift_carry, shift_result, zf,
};
use crate::bus::Bus;
use crate::cpu_spec::{CpuView, offset16, pair};
use crate::interrupts::Interrupt;

verus! {

const Z_FLAG: u8 = 0x80;
const N_FLAG: u8 = 0x40;
const H_FLAG: u8 = 0x20;
const C_FLAG: u8 = 0x10;

pub struct Cpu {
    pub bus: Bus,
    pub a: u8,
    pub b: u8,
    pub c: u8,
    pub d: u8,
    pub e: u8,
    pub h: u8,
    pub l: u8,
    pub sp: u16,
    pub pc: u16,
    pub f: u8,
    pub ime: bool,
    /// Set by EI: IME is turned on once the following instruction starts.
    pub ime_pending: bool,
    /// Set by HALT and STOP; cleared when an interrupt is pending.
    pub is_sleeping: bool,
}

/// The flag byte for the four flags.
fn flags_byte(z: bool, n: bool, h: bool, c: bool) -> (r: u8)
    ensures
        r == mk_flags(z, n, h, c),
        r & 0x0F == 0,
        zf(r) == z,
        nf(r) == n,
        hf(r) == h,
        cf(r) == c,
{
    proof {
        lemma_mk_flags(z, n, h, c);
    }
    (if z {
        0x80u8
    } else {
        0u8
    }) | (if n {
        0x40u8
    } else {
        0u8
    }) | (if h {
        0x20u8
    } else {
        0u8
    }) | (if c {
        0x10u8
    } else {
        0u8
    })
}

/// `base` moved by the signed 8-bit offset `off`.
fn add_signed(base: u16, off: u8) -> (r: u16)
    ensures
        r == offset16(base, off),
{
    if off < 128 {
        base.wrapping_add(off as u16)
    } else {
        base.wrapping_sub(256 - off as u16)
    }
}

/// Result and carry of the CB rotate / shift selected by `op` (0..8).
fn shift_op(op: u8, x: u8, carry: bool) -> (r: (u8, bool))
    requires
        op < 8,
    ensures
        r.0 == shift_result(op, x, carry),
        r.1 == shift_carry(op, x),
{
    let cin: u8 = if carry {
        1
    } else {
        0
    };
    let lo = x % 2;
    let top = x / 128;
    if op == 0 {
        (((x as u16 * 2) % 256) as u8 + top, x >= 128)
    } else if op == 1 {
        (x / 2 + lo * 128, lo == 1)
    } else if op == 2 {
        (((x as u16 * 2) % 256) as u8 + cin, x >= 128)
    } else if op == 3 {
        (x / 2 + cin * 128, lo == 1)
    } else if op == 4 {
        (((x as u16 * 2) % 256) as u8, x >= 128)
    } else if op == 5 {
        (x / 2 + top * 128, lo == 1)
    } else if op == 6 {
        ((x % 16) * 16 + x / 16, false)
    } else {
        (x / 2, lo == 1)
    }
}

impl Cpu {
    pub open spec fn view(&self) -> CpuView {
        CpuView {
            a: self.a,
            f: self.f,
            b: self.b,
            c: self.c,
            d: self.d,
            e: self.e,
            h: self.h,
            l: self.l,
            sp: self.sp,
            pc: self.pc,
            ime: self.ime,
            ime_pending: self.ime_pending,
            halted: self.is_sleeping,
            bus: self.bus.view(),
        }
    }

    /// The bus is well formed and the low nibble of F is zero.
    pub open spec fn wf(&self) -> bool {
        self.view().wf()
    }

    /// The state after the boot ROM has run.
    pub fn new(bus: Bus) -> (r: Cpu)
        requires
            bus.wf(),
        ensures
            r.wf(),
            r.bus == bus,
            r.a == 0x01 && r.f == 0xB0,
            r.b == 0x00 && r.c == 0x13,
            r.d == 0x00 && r.e == 0xD8,
            r.h == 0x01 && r.l == 0x4D,
            r.sp == 0xFFFE && r.pc == 0x0100,
            !r.ime && !r.ime_pending && !r.is_sleeping,
    {
        assert(0xB0u8 & 0x0F == 0) by (bit_vector);
        Cpu {
            bus,
            a: 0x01,
            f: 0xB0,
            b: 0x00,
            c: 0x13,
            d: 0x00,
            e: 0xD8,
            h: 0x01,
            l: 0x4D,
            sp: 0xFFFE,
            pc: 0x0100,
            ime: false,
            ime_pending: false,
            is_sleeping: false,
        }
    }

    pub fn get_z(&self) -> (r: bool)
        ensures
            r == zf(self.f),
    {
        self.f & Z_FLAG != 0
    }

    pub fn get_n(&self) -> (r: bool)
        ensures
            r == nf(self.f),
    {
        self.f & N_FLAG != 0
    }

    pub fn get_h(&self) -> (r: bool)
        ensures
            r == hf(self.f),
    {
        self.f & H_FLAG != 0
    }

    pub fn get_c(&self) -> (r: bool)
        ensures
            r == cf(self.f),
    {
        self.f & C_FLAG != 0
    }

    pub fn set_z(&mut self, value: bool)
        requires
            old(self).wf(),
        ensures
            final(self).wf(),
            final(self).view() == old(self).view().with_flags(
                mk_flags(value, nf(old(self).f), hf(old(self).f), cf(old(self).f)),
            ),
    {
        self.f = flags_byte(value, self.get_n(), self.get_h(), self.get_c());
    }

    pub fn set_n(&mut self, value: bool)
        requires
            old(self).wf(),
        ensures
            final(self).wf(),
            final(self).view() == old(self).view().with_flags(
                mk_flags(zf(old(self).f), value, hf(old(self).f), cf(old(self).f)),
            ),
    {
        self.f = flags_byte(self.get_z(), value, self.get_h(), self.get_c());
    }

    pub fn set_h(&mut self, value: bool)
        requires
            old(self).wf(),
        ensures
            final(self).wf(),
            final(self).view() == old(self).view().with_flags(
                mk_flags(zf(old(self).f), nf(old(self).f), value, cf(old(self).f)),
            ),
    {
        self.f = flags_byte(self.get_z(), self.get_n(), value, self.get_c());
    }

    pub fn set_c(&mut self, value: bool)
        requires
            old(self).wf(),
        ensures
            final(self).wf(),
            final(self).view() == old(self).view().with_flags(
                mk_flags(zf(old(self).f), nf(old(self).f), hf(old(self).f), value),
            ),
    {
        self.f = flags_byte(self.get_z(), self.get_n(), self.get_h(), value);
    }

    fn set_flags(&mut self, z: bool, n: bool, h: bool, c: bool)
        requires
            old(self).wf(),
        ensures
            final(self).wf(),
            final(self).view() == old(self).view().with_flags(mk_flags(z, n, h, c)),
    {
        self.f = flags_byte(z, n, h, c);
    }

    pub fn get_af(&self) -> (r: u16)
        ensures
            r == pair(self.a, self.f),
    {
        self.a as u16 * 256 + self.f as u16
    }

    /// Loads A and F; F keeps only its upper nibble.
    pub fn set_af(&mut self, value: u16)
        requires
            old(self).wf(),
        ensures
            final(self).wf(),
            final(self).view() == old(self).view().set_rp2(3, value),
    {
        self.a = (value / 256) as u8;
        let lo = (value % 256) as u8;
        assert((lo & 0xF0) & 0x0F == 0) by (bit_vector);
        self.f = lo & 0xF0;
    }

    pub fn get_bc(&self) -> (r: u16)
        ensures
            r == pair(self.b, self.c),
    {
        self.b as u16 * 256 + self.c as u16
    }

    pub fn set_bc(&mut self, value: u16)
        requires
            old(self).wf(),
        ensures
            final(self).wf(),
            final(self).view() == old(self).view().set_rp(0, value),
    {
        self.b = (value / 256) as u8;
        self.c = (value % 256) as u8;
    }

    pub fn get_de(&self) -> (r: u16)
        ensures
            r == pair(self.d, self.e),
    {
        self.d as u16 * 256 + self.e as u16
    }

    pub fn set_de(&mut self, value: u16)
        requires
            old(self).wf(),
        ensures
            final(self).wf(),
            final(self).view() == old(self).view().set_rp(1, value),
    {
        self.d = (value / 256) as u8;
        self.e = (value % 256) as u8;
    }

    pub fn get_hl(&self) -> (r: u16)
        ensures
            r == pair(self.h, self.l),
    {
        self.h as u16 * 256 + self.l as u16
    }

    pub fn set_hl(&mut self, value: u16)
        requires
            old(self).wf(),
        ensures
            final(self).wf(),
            final(self).view() == old(self).view().set_rp(2, value),
    {
        self.h = (value / 256) as u8;
        self.l = (value % 256) as u8;
    }

    /// Wakes from HALT when an enabled interrupt is requested and, with IME
    /// set, dispatches the highest-priority one.
    pub fn check_interrupts(&mut self)
        requires
            old(self).wf(),
        ensures
            final(self).wf(),
            final(self).view() == old(self).view().interrupt_spec(),
    {
        let pending = self.bus.int_flag & self.bus.ie_reg & 0x1F;
        let chosen = if pending & 0x01 != 0 {
            Some(Interrupt::VBlank)
        } else if pending & 0x02 != 0 {
            Some(Interrupt::LcdStat)
        } else if pending & 0x04 != 0 {
            Some(Interrupt::Timer)
        } else if pending & 0x08 != 0 {
            Some(Interrupt::Serial)
        } else if pending & 0x10 != 0 {
            Some(Interrupt::Joypad)
        } else {
            None
        };
        match chosen {
            None => {},
            Some(interrupt) => {
                self.is_sleeping = false;
                if self.ime {
                    self.handle_interrupt(interrupt);
                }
            },
        }
    }

    /// Dispatches `interrupt`: IME off, its IF bit cleared, PC pushed, PC set
    /// to the vector.
    pub fn handle_interrupt(&mut self, interrupt: Interrupt)
        requires
            old(self).wf(),
        ensures
            final(self).wf(),
            final(self).view() == old(self).view().dispatch(interrupt),
    {
        self.ime = false;
        self.bus.int_flag = self.bus.int_flag & !interrupt.mask();
        let pc = self.pc;
        self.push_stack(pc);
        self.pc = interrupt.handler_address();
    }

    fn next_u8(&mut self) -> (r: u8)
        requires
            old(self).wf(),
        ensures
            final(self).wf(),
            r == old(self).view().imm8(),
            final(self).view() == old(self).view().skip(1),
    {
        let val = self.bus.read_byte(self.pc);
        self.pc = self.pc.wrapping_add(1);
        val
    }

    fn next_u16(&mut self) -> (r: u16)
        requires
            old(self).wf(),
        ensures
            final(self).wf(),
            r == old(self).view().imm16(),
            final(self).view() == old(self).view().skip(2),
    {
        let low = self.bus.read_byte(self.pc) as u16;
        let high = self.bus.read_byte(self.pc.wrapping_add(1)) as u16;
        self.pc = self.pc.wrapping_add(2);
        high * 256 + low
    }

    fn push_stack(&mut self, value: u16)
        requires
            old(self).wf(),
        ensures
            final(self).wf(),
            final(self).view() == old(self).view().push(value),
    {
        let sp1 = self.sp.wrapping_sub(1);
        self.bus.write_byte(sp1, (value / 256) as u8);
        let sp2 = sp1.wrapping_sub(1);
        self.bus.write_byte(sp2, (value % 256) as u8);
        self.sp = sp2;
    }

    fn pop_stack(&mut self) -> (r: u16)
        requires
            old(self).wf(),
        ensures
            final(self).wf(),
            r == old(self).view().pop_value(),
            final(self).view() == old(self).view().popped(),
    {
        let low = self.bus.read_byte(self.sp) as u16;
        let high = self.bus.read_byte(self.sp.wrapping_add(1)) as u16;
        self.sp = self.sp.wrapping_add(2);
        high * 256 + low
    }

    /// Operand by its 3-bit code: B, C, D, E, H, L, (HL), A.
    fn get_cb_reg(&self, index: u8) -> (r: u8)
        requires
            self.wf(),
        ensures
            r == self.view().r8(index),
    {
        if index == 0 {
            self.b
        } else if index == 1 {
            self.c
        } else if index == 2 {
            self.d
        } else if index == 3 {
            self.e
        } else if index == 4 {
            self.h
        } else if index == 5 {
            self.l
        } else if index == 6 {
            self.bus.read_byte(self.get_hl())
        } else {
            self.a
        }
    }

    fn set_cb_reg(&mut self, index: u8, val: u8)
        requires
            old(self).wf(),
        ensures
            final(self).wf(),
            final(self).view() == old(self).view().set_r8(index, val),
    {
        if index == 0 {
            self.b = val;
        } else if index == 1 {
            self.c = val;
        } else if index == 2 {
            self.d = val;
        } else if index == 3 {
            self.e = val;
        } else if index == 4 {
            self.h = val;
        } else if index == 5 {
            self.l = val;
        } else if index == 6 {
            let hl = self.get_hl();
            self.bus.write_byte(hl, val);
        } else {
            self.a = val;
        }
    }

    /// 16-bit register by its 2-bit code: BC, DE, HL, SP.
    fn get_rp(&self, p: u8) -> (r: u16)
        ensures
            r == self.view().rp(p),
    {
        if p == 0 {
            self.get_bc()
        } else if p == 1 {
            self.get_de()
        } else if p == 2 {
            self.get_hl()
        } else {
            self.sp
        }
    }

    fn set_rp(&mut self, p: u8, value: u16)
        requires
            old(self).wf(),
        ensures
            final(self).wf(),
            final(self).view() == old(self).view().set_rp(p, value),
    {
        if p == 0 {
            self.set_bc(value);
        } else if p == 1 {
            self.set_de(value);
        } else if p == 2 {
            self.set_hl(value);
        } else {
            self.sp = value;
        }
    }

    /// Branch condition by its 2-bit code: NZ, Z, NC, C.
    fn condition(&self, y: u8) -> (r: bool)
        ensures
            r == self.view().cond(y),
    {
        if y == 0 {
            !self.get_z()
        } else if y == 1 {
            self.get_z()
        } else if y == 2 {
            !self.get_c()
        } else {
            self.get_c()
        }
    }

    /// ADD, ADC, SUB, SBC, AND, XOR, OR or CP (by `op`) of `value` into A.
    fn alu_op(&mut self, op: u8, value: u8)
        requires
            old(self).wf(),
            op < 8,
        ensures
            final(self).wf(),
            final(self).view() == (CpuView {
                a: alu(op, old(self).a, value, old(self).f).0,
                f: alu(op, old(self).a, value, old(self).f).1,
                ..old(self).view()
            }),
    {
        let a = self.a;
        let carry_in: u16 = if (op == 1 || op == 3) && self.get_c() {
            1
        } else {
            0
        };
        if op <= 1 {
            let sum: u16 = a as u16 + value as u16 + carry_in;
            let r = (sum % 256) as u8;
            self.set_flags(r == 0, false, (a % 16) as u16 + (value % 16) as u16 + carry_in > 15, sum > 255);
            self.a = r;
        } else if op <= 3 || op == 7 {
            let r = ((a as u16 + 512 - value as u16 - carry_in) % 256) as u8;
            self.set_flags(
                r == 0,
                true,
                ((a % 16) as u16) < (value % 16) as u16 + carry_in,
                (a as u16) < value as u16 + carry_in,
            );
            if op != 7 {
                self.a = r;
            }
        } else if op == 4 {
            self.a = a & value;
            self.set_flags(a & value == 0, false, true, false);
        } else if op == 5 {
            self.xor_a(value);
        } else {
            self.a = a | value;
            self.set_flags(a | value == 0, false, false, false);
        }
    }

    fn xor_a(&mut self, value: u8)
        requires
            old(self).wf(),
        ensures
            final(self).wf(),
            final(self).view() == (CpuView {
                a: old(self).a ^ value,
                f: mk_flags(old(self).a ^ value == 0, false, false, false),
                ..old(self).view()
            }),
    {
        self.a = self.a ^ value;
        let z = self.a == 0;
        self.set_flags(z, false, false, false);
    }

    fn inc(&mut self, value: u8) -> (r: u8)
        requires
            old(self).wf(),
        ensures
            final(self).wf(),
            r == inc8(value, old(self).f).0,
            final(self).view() == old(self).view().with_flags(inc8(value, old(self).f).1),
    {
        let result = value.wrapping_add(1);
        let c = self.get_c();
        self.set_flags(result == 0, false, value % 16 == 15, c);
        result
    }

    fn dec(&mut self, value: u8) -> (r: u8)
        requires
            old(self).wf(),
        ensures
            final(self).wf(),
            r == dec8(value, old(self).f).0,
            final(self).view() == old(self).view().with_flags(dec8(value, old(self).f).1),
    {
        let result = value.wrapping_sub(1);
        let c = self.get_c();
        self.set_flags(result == 0, true, value % 16 == 0, c);
        result
    }

    fn daa(&mut self)
        requires
            old(self).wf(),
        ensures
            final(self).wf(),
            final(self).view() == (CpuView {
                a: daa8(old(self).a, old(self).f).0,
                f: daa8(old(self).a, old(self).f).1,
                ..old(self).view()
            }),
    {
        let a = self.a;
        let h = self.get_h();
        let c = self.get_c();
        if !self.get_n() {
            let lo = h || a % 16 > 9;
            let hi = c || a > 0x99;
            let corr: u16 = (if lo { 6 } else { 0 }) + (if hi { 0x60 } else { 0 });
            let r = ((a as u16 + corr) % 256) as u8;
            self.set_flags(r == 0, false, false, hi);
            self.a = r;
        } else {
            let corr: u16 = (if h { 6 } else { 0 }) + (if c { 0x60 } else { 0 });
            let r = ((a as u16 + 256 - corr) % 256) as u8;
            self.set_flags(r == 0, true, false, c);
            self.a = r;
        }
    }

    /// ADD HL,rr: H from bit 11, C from bit 15, Z kept.
    fn add_hl(&mut self, value: u16)
        requires
            old(self).wf(),
        ensures
            final(self).wf(),
            final(self).view() == old(self).view().set_rp(
                2,
                ((old(self).view().hl() + value) % 65536) as u16,
            ).with_flags(
                mk_flags(
                    zf(old(self).f),
                    false,
                    old(self).view().hl() % 4096 + value % 4096 > 4095,
                    old(self).view().hl() + value > 65535,
                ),
            ),
    {
        let hl = self.get_hl();
        let sum: u32 = hl as u32 + value as u32;
        let z = self.get_z();
        self.set_hl((sum % 65536) as u16);
        self.set_flags(z, false, hl % 4096 + value % 4096 > 4095, sum > 65535);
    }

    /// JR: reads the offset; jumps when `condition` holds.
    fn jr(&mut self, condition: bool) -> (cycles: u8)
        requires
            old(self).wf(),
        ensures
            final(self).wf(),
            final(self).view() == (if condition {
                CpuView {
                    pc: offset16(old(self).view().skip(1).pc, old(self).view().imm8()),
                    ..old(self).view().skip(1)
                }
            } else {
                old(self).view().skip(1)
            }),
            cycles == (if condition { 12u8 } else { 8u8 }),
            cycles <= 24,
    {
        let offset = self.next_u8();
        if condition {
            self.pc = add_signed(self.pc, offset);
            12
        } else {
            8
        }
    }

    /// CALL: reads the target; pushes PC and jumps when `condition` holds.
    fn call(&mut self, condition: bool) -> (cycles: u8)
        requires
            old(self).wf(),
        ensures
            final(self).wf(),
            final(self).view() == (if condition {
                CpuView {
                    pc: old(self).view().imm16(),
                    ..old(self).view().skip(2).push(old(self).view().skip(2).pc)
                }
            } else {
                old(self).view().skip(2)
            }),
            cycles == (if condition { 24u8 } else { 12u8 }),
            cycles <= 24,
    {
        let address = self.next_u16();
        if condition {
            let pc = self.pc;
            self.push_stack(pc);
            self.pc = address;
            24
        } else {
            12
        }
    }

    fn rst(&mut self, address: u16)
        requires
            old(self).wf(),
        ensures
            final(self).wf(),
            final(self).view() == (CpuView {
                pc: address,
                ..old(self).view().push(old(self).pc)
            }),
    {
        let pc = self.pc;
        self.push_stack(pc);
        self.pc = address;
    }
}

impl Cpu {
    /// Executes one instruction and returns its cost in T-cycles; a halted
    /// processor only spends 4.
    pub fn step(&mut self) -> (cycles: u8)
        requires
            old(self).wf(),
        ensures
            final(self).wf(),
            (final(self).view(), cycles) == old(self).view().step_spec(),
            cycles <= 24,
    {
        if self.is_sleeping {
            return 4;
        }
        if self.ime_pending {
            self.ime = true;
            self.ime_pending = false;
        }
        let opcode = self.next_u8();
        self.execute(opcode)
    }

    fn execute(&mut self, opcode: u8) -> (cycles: u8)
        requires
            old(self).wf(),
        ensures
            final(self).wf(),
            (final(self).view(), cycles) == old(self).view().execute(opcode),
            cycles <= 24,
    {
        if opcode == 0xCB {
            self.step_cb()
        } else if opcode < 0x40 {
            self.exec_block0(opcode)
        } else if opcode < 0x80 {
            self.exec_load(opcode)
        } else if opcode < 0xC0 {
            self.exec_alu(opcode)
        } else {
            self.exec_block3(opcode)
        }
    }

    /// Opcodes 0x00..=0x3F.
    #[verifier::rlimit(50)]
    fn exec_block0(&mut self, op: u8) -> (cycles: u8)
        requires
            old(self).wf(),
            op < 0x40,
        ensures
            final(self).wf(),
            (final(self).view(), cycles) == old(self).view().exec_block0(op),
            cycles <= 24,
    {
        let y = (op / 8) % 8;
        let z = op % 8;
        let p = y / 2;
        let q = y % 2;
        if z == 0 {
            if y == 0 {
                4
            } else if y == 1 {
                let address = self.next_u16();
                let sp = self.sp;
                self.bus.write_byte(address, (sp % 256) as u8);
                self.bus.write_byte(address.wrapping_add(1), (sp / 256) as u8);
                20
            } else if y == 2 {
                self.next_u8();
                self.is_sleeping = true;
                4
            } else {
                let taken = y == 3 || self.condition(y - 4);
                self.jr(taken)
            }
        } else if z == 1 {
            if q == 0 {
                let v = self.next_u16();
                self.set_rp(p, v);
                12
            } else {
                let v = self.get_rp(p);
                self.add_hl(v);
                8
            }
        } else if z == 2 {
            let address = if p == 0 {
                self.get_bc()
            } else if p == 1 {
                self.get_de()
            } else {
                self.get_hl()
            };
            if p == 2 {
                self.set_hl(address.wrapping_add(1));
            } else if p == 3 {
                self.set_hl(address.wrapping_sub(1));
            }
            if q == 0 {
                let a = self.a;
                self.bus.write_byte(address, a);
            } else {
                self.a = self.bus.read_byte(address);
            }
            8
        } else if z == 3 {
            let v = self.get_rp(p);
            if q == 0 {
                self.set_rp(p, v.wrapping_add(1));
            } else {
                self.set_rp(p, v.wrapping_sub(1));
            }
            8
        } else if z == 4 || z == 5 {
            let v = self.get_cb_reg(y);
            let r = if z == 4 {
                self.inc(v)
            } else {
                self.dec(v)
            };
            self.set_cb_reg(y, r);
            if y == 6 {
                12
            } else {
                4
            }
        } else if z == 6 {
            let v = self.next_u8();
            self.set_cb_reg(y, v);
            if y == 6 {
                12
            } else {
                8
            }
        } else if y < 4 {
            let (r, carry) = shift_op(y, self.a, self.get_c());
            self.a = r;
            self.set_flags(false, false, false, carry);
            4
        } else if y == 4 {
            self.daa();
            4
        } else if y == 5 {
            self.a = 255 - self.a;
            let z = self.get_z();
            let c = self.get_c();
            self.set_flags(z, true, true, c);
            4
        } else if y == 6 {
            let z = self.get_z();
            self.set_flags(z, false, false, true);
            4
        } else {
            let z = self.get_z();
            let c = self.get_c();
            self.set_flags(z, false, false, !c);
            4
        }
    }

    /// Opcodes 0x40..=0x7F: LD r, r' and HALT.
    fn exec_load(&mut self, op: u8) -> (cycles: u8)
        requires
            old(self).wf(),
            0x40 <= op < 0x80,
        ensures
            final(self).wf(),
            (final(self).view(), cycles) == old(self).view().exec_load(op),
            cycles <= 24,
    {
        if op == 0x76 {
            self.is_sleeping = true;
            return 4;
        }
        let y = (op / 8) % 8;
        let z = op % 8;
        let v = self.get_cb_reg(z);
        self.set_cb_reg(y, v);
        if y == 6 || z == 6 {
            8
        } else {
            4
        }
    }

    /// Opcodes 0x80..=0xBF: ALU on A.
    fn exec_alu(&mut self, op: u8) -> (cycles: u8)
        requires
            old(self).wf(),
            0x80 <= op < 0xC0,
        ensures
            final(self).wf(),
            (final(self).view(), cycles) == old(self).view().exec_alu(op),
            cycles <= 24,
    {
        let y = (op / 8) % 8;
        let z = op % 8;
        let v = self.get_cb_reg(z);
        self.alu_op(y, v);
        if z == 6 {
            8
        } else {
            4
        }
    }

    /// Opcodes 0xC0..=0xFF but 0xCB.
    #[verifier::rlimit(50)]
    fn exec_block3(&mut self, op: u8) -> (cycles: u8)
        requires
            old(self).wf(),
            0xC0 <= op,
            op != 0xCB,
        ensures
            final(self).wf(),
            (final(self).view(), cycles) == old(self).view().exec_block3(op),
            cycles <= 24,
    {
        proof {
            reveal(CpuView::exec_block3);
        }
        let y = (op / 8) % 8;
        let z = op % 8;
        let p = y / 2;
        let q = y % 2;
        if z == 0 {
            if y < 4 {
                if self.condition(y) {
                    self.pc = self.pop_stack();
                    20
                } else {
                    8
                }
            } else if y == 4 {
                let address = 0xFF00 + self.next_u8() as u16;
                let a = self.a;
                self.bus.write_byte(address, a);
                12
            } else if y == 5 || y == 7 {
                let off = self.next_u8();
                let sp = self.sp;
                let result = add_signed(sp, off);
                if y == 5 {
                    self.sp = result;
                } else {
                    self.set_hl(result);
                }
                self.set_flags(false, false, sp % 16 + off as u16 % 16 > 15, sp % 256 + off as u16 > 255);
                if y == 5 {
                    16
                } else {
                    12
                }
            } else {
                let address = 0xFF00 + self.next_u8() as u16;
                self.a = self.bus.read_byte(address);
                12
            }
        } else if z == 1 {
            if q == 0 {
                let v = self.pop_stack();
                if p == 3 {
                    self.set_af(v);
                } else {
                    self.set_rp(p, v);
                }
                12
            } else if p == 0 {
                self.pc = self.pop_stack();
                16
            } else if p == 1 {
                self.pc = self.pop_stack();
                self.ime = true;
                16
            } else if p == 2 {
                self.pc = self.get_hl();
                4
            } else {
                self.sp = self.get_hl();
                8
            }
        } else if z == 2 {
            if y < 4 {
                let target = self.next_u16();
                if self.condition(y) {
                    self.pc = target;
                    16
                } else {
                    12
                }
            } else if y == 4 {
                let a = self.a;
                self.bus.write_byte(0xFF00 + self.c as u16, a);
                8
            } else if y == 5 {
                let address = self.next_u16();
                let a = self.a;
                self.bus.write_byte(address, a);
                16
            } else if y == 6 {
                self.a = self.bus.read_byte(0xFF00 + self.c as u16);
                8
            } else {
                let address = self.next_u16();
                self.a = self.bus.read_byte(address);
                16
            }
        } else if z == 3 {
            if y == 0 {
                self.pc = self.next_u16();
                16
            } else if y == 6 {
                self.ime = false;
                self.ime_pending = false;
                4
            } else if y == 7 {
                self.ime_pending = true;
                4
            } else {
                4
            }
        } else if z == 4 {
            if y < 4 {
                let taken = self.condition(y);
                self.call(taken)
            } else {
                4
            }
        } else if z == 5 {
            if q == 0 {
                let v = if p == 3 {
                    self.get_af()
                } else {
                    self.get_rp(p)
                };
                self.push_stack(v);
                16
            } else if p == 0 {
                self.call(true)
            } else {
                4
            }
        } else if z == 6 {
            let v = self.next_u8();
            self.alu_op(y, v);
            8
        } else {
            self.rst(y as u16 * 8);
            16
        }
    }

    /// A CB-prefixed instruction: rotates and shifts, BIT, RES and SET.
    pub fn step_cb(&mut self) -> (cycles: u8)
        requires
            old(self).wf(),
        ensures
            final(self).wf(),
            (final(self).view(), cycles) == old(self).view().exec_cb(),
            cycles <= 24,
    {
        let opcode = self.next_u8();
        let reg_idx = opcode % 8;
        let bit_idx = (opcode / 8) % 8;
        let group = opcode / 64;
        let cycles: u8 = if reg_idx == 6 {
            if group == 1 {
                12
            } else {
                16
            }
        } else {
            8
        };
        let val = self.get_cb_reg(reg_idx);
        if group == 0 {
            let (result, carry) = shift_op(bit_idx, val, self.get_c());
            self.set_cb_reg(reg_idx, result);
            self.set_flags(result == 0, false, false, carry);
        } else if group == 1 {
            let c = self.get_c();
            self.set_flags((val >> bit_idx) & 1 == 0, false, true, c);
        } else if group == 2 {
            self.set_cb_reg(reg_idx, val & !(1u8 << bit_idx));
        } else {
            self.set_cb_reg(reg_idx, val | (1u8 << bit_idx));
        }
        cycles
    }
}

} // verus!
