use vstd::prelude::*;
use crate::alu::{alu, cf, daa8, dec8, inc8, mk_flags, shift8, shift_carry, shift_result, zf};
use crate::bus::BusView;
use crate::interrupts::{Interrupt, pow2_u8};

verus! {

pub open spec fn pair(hi: u8, lo: u8) -> u16 {
    (hi * 256 + lo) as u16
}

pub open spec fn hi_byte(v: u16) -> u8 {
    (v / 256) as u8
}

pub open spec fn lo_byte(v: u16) -> u8 {
    (v % 256) as u8
}

/// `base` moved by the signed 8-bit offset `off`.
pub open spec fn offset16(base: u16, off: u8) -> u16 {
    if off < 128 {
        base.wrapping_add(off as u16)
    } else {
        base.wrapping_sub((256 - off) as u16)
    }
}

/// Mathematical state of the processor and everything on its bus.
pub ghost struct CpuView {
    pub a: u8,
    pub f: u8,
    pub b: u8,
    pub c: u8,
    pub d: u8,
    pub e: u8,
    pub h: u8,
    pub l: u8,
    pub sp: u16,
    pub pc: u16,
    pub ime: bool,
    /// EI was just executed: IME is set before the next instruction runs.
    pub ime_pending: bool,
    pub halted: bool,
    pub bus: BusView,
}

impl CpuView {
    pub open spec fn wf(self) -> bool {
        self.bus.wf() && self.f & 0x0F == 0
    }

    pub open spec fn hl(self) -> u16 {
        pair(self.h, self.l)
    }

    /// 8-bit operand by its 3-bit code: B, C, D, E, H, L, (HL), A.
    pub open spec fn r8(self, i: u8) -> u8 {
        if i == 0 {
            self.b
        } else if i == 1 {
            self.c
        } else if i == 2 {
            self.d
        } else if i == 3 {
            self.e
        } else if i == 4 {
            self.h
        } else if i == 5 {
            self.l
        } else if i == 6 {
            self.bus.read(self.hl())
        } else {
            self.a
        }
    }

    pub open spec fn set_r8(self, i: u8, v: u8) -> CpuView {
        if i == 0 {
            CpuView { b: v, ..self }
        } else if i == 1 {
            CpuView { c: v, ..self }
        } else if i == 2 {
            CpuView { d: v, ..self }
        } else if i == 3 {
            CpuView { e: v, ..self }
        } else if i == 4 {
            CpuView { h: v, ..self }
        } else if i == 5 {
            CpuView { l: v, ..self }
        } else if i == 6 {
            CpuView { bus: self.bus.write(self.hl(), v), ..self }
        } else {
            CpuView { a: v, ..self }
        }
    }

    /// 16-bit register by its 2-bit code: BC, DE, HL, SP.
    pub open spec fn rp(self, p: u8) -> u16 {
        if p == 0 {
            pair(self.b, self.c)
        } else if p == 1 {
            pair(self.d, self.e)
        } else if p == 2 {
            self.hl()
        } else {
            self.sp
        }
    }

    pub open spec fn set_rp(self, p: u8, v: u16) -> CpuView {
        if p == 0 {
            CpuView { b: hi_byte(v), c: lo_byte(v), ..self }
        } else if p == 1 {
            CpuView { d: hi_byte(v), e: lo_byte(v), ..self }
        } else if p == 2 {
            CpuView { h: hi_byte(v), l: lo_byte(v), ..self }
        } else {
            CpuView { sp: v, ..self }
        }
    }

    /// Register pair for PUSH / POP by its 2-bit code: BC, DE, HL, AF.
    pub open spec fn rp2(self, p: u8) -> u16 {
        if p == 3 {
            pair(self.a, self.f)
        } else {
            self.rp(p)
        }
    }

    /// Stores into a PUSH / POP pair; F keeps only its upper nibble.
    pub open spec fn set_rp2(self, p: u8, v: u16) -> CpuView {
        if p == 3 {
            CpuView { a: hi_byte(v), f: lo_byte(v) & 0xF0, ..self }
        } else {
            self.set_rp(p, v)
        }
    }

    /// Branch condition by its 2-bit code: NZ, Z, NC, C.
    pub open spec fn cond(self, y: u8) -> bool {
        if y == 0 {
            !zf(self.f)
        } else if y == 1 {
            zf(self.f)
        } else if y == 2 {
            !cf(self.f)
        } else {
            cf(self.f)
        }
    }

    pub open spec fn imm8(self) -> u8 {
        self.bus.read(self.pc)
    }

    pub open spec fn imm16(self) -> u16 {
        pair(self.bus.read(self.pc.wrapping_add(1)), self.bus.read(self.pc))
    }

    pub open spec fn skip(self, n: u16) -> CpuView {
        CpuView { pc: self.pc.wrapping_add(n), ..self }
    }

    /// SP -= 1, high byte written; SP -= 1, low byte written.
    pub open spec fn push(self, v: u16) -> CpuView {
        let sp1 = self.sp.wrapping_sub(1);
        let sp2 = sp1.wrapping_sub(1);
        CpuView { sp: sp2, bus: self.bus.write(sp1, hi_byte(v)).write(sp2, lo_byte(v)), ..self }
    }

    pub open spec fn pop_value(self) -> u16 {
        pair(self.bus.read(self.sp.wrapping_add(1)), self.bus.read(self.sp))
    }

    pub open spec fn popped(self) -> CpuView {
        CpuView { sp: self.sp.wrapping_add(2), ..self }
    }

    pub open spec fn with_flags(self, f: u8) -> CpuView {
        CpuView { f, ..self }
    }

    /// Opcodes 0x00..=0x3F; `self.pc` is past the opcode.
    pub open spec fn exec_block0(self, op: u8) -> (CpuView, u8) {
        let y = (op / 8) % 8;
        let z = op % 8;
        let p = y / 2;
        let q = y % 2;
        if z == 0 {
            if y == 0 {
                (self, 4)
            } else if y == 1 {
                let addr = self.imm16();
                let s = self.skip(2);
                (
                    CpuView {
                        bus: s.bus.write(addr, lo_byte(s.sp)).write(
                            addr.wrapping_add(1),
                            hi_byte(s.sp),
                        ),
                        ..s
                    },
                    20,
                )
            } else if y == 2 {
                (CpuView { halted: true, ..self.skip(1) }, 4)
            } else {
                let off = self.imm8();
                let s = self.skip(1);
                if y == 3 || s.cond((y - 4) as u8) {
                    (CpuView { pc: offset16(s.pc, off), ..s }, 12)
                } else {
                    (s, 8)
                }
            }
        } else if z == 1 {
            if q == 0 {
                (self.skip(2).set_rp(p, self.imm16()), 12)
            } else {
                let hl = self.hl();
                let v = self.rp(p);
                let sum = hl + v;
                (
                    self.set_rp(2, (sum % 65536) as u16).with_flags(
                        mk_flags(zf(self.f), false, hl % 4096 + v % 4096 > 4095, sum > 65535),
                    ),
                    8,
                )
            }
        } else if z == 2 {
            let addr = if p == 0 {
                self.rp(0)
            } else if p == 1 {
                self.rp(1)
            } else {
                self.hl()
            };
            let s = if p == 2 {
                self.set_rp(2, self.hl().wrapping_add(1))
            } else if p == 3 {
                self.set_rp(2, self.hl().wrapping_sub(1))
            } else {
                self
            };
            if q == 0 {
                (CpuView { bus: s.bus.write(addr, self.a), ..s }, 8)
            } else {
                (CpuView { a: self.bus.read(addr), ..s }, 8)
            }
        } else if z == 3 {
            if q == 0 {
                (self.set_rp(p, self.rp(p).wrapping_add(1)), 8)
            } else {
                (self.set_rp(p, self.rp(p).wrapping_sub(1)), 8)
            }
        } else if z == 4 || z == 5 {
            let (r, f) = if z == 4 {
                inc8(self.r8(y), self.f)
            } else {
                dec8(self.r8(y), self.f)
            };
            (self.set_r8(y, r).with_flags(f), if y == 6 { 12 } else { 4 })
        } else if z == 6 {
            (self.skip(1).set_r8(y, self.imm8()), if y == 6 { 12 } else { 8 })
        } else {
            if y < 4 {
                (
                    CpuView {
                        a: shift_result(y, self.a, cf(self.f)),
                        f: mk_flags(false, false, false, shift_carry(y, self.a)),
                        ..self
                    },
                    4,
                )
            } else if y == 4 {
                let (r, f) = daa8(self.a, self.f);
                (CpuView { a: r, f, ..self }, 4)
            } else if y == 5 {
                (
                    CpuView {
                        a: (255 - self.a) as u8,
                        f: mk_flags(zf(self.f), true, true, cf(self.f)),
                        ..self
                    },
                    4,
                )
            } else if y == 6 {
                (self.with_flags(mk_flags(zf(self.f), false, false, true)), 4)
            } else {
                (self.with_flags(mk_flags(zf(self.f), false, false, !cf(self.f))), 4)
            }
        }
    }

    /// Opcodes 0x40..=0x7F: LD r, r' and HALT.
    pub open spec fn exec_load(self, op: u8) -> (CpuView, u8) {
        let y = (op / 8) % 8;
        let z = op % 8;
        if op == 0x76 {
            (CpuView { halted: true, ..self }, 4)
        } else {
            (self.set_r8(y, self.r8(z)), if y == 6 || z == 6 { 8 } else { 4 })
        }
    }

    /// Opcodes 0x80..=0xBF: ALU on A with an 8-bit operand.
    pub open spec fn exec_alu(self, op: u8) -> (CpuView, u8) {
        let y = (op / 8) % 8;
        let z = op % 8;
        let (a, f) = alu(y, self.a, self.r8(z), self.f);
        (CpuView { a, f, ..self }, if z == 6 { 8 } else { 4 })
    }

    /// ADD SP,r8 / LD HL,SP+r8 flags: from the unsigned low-byte addition.
    pub open spec fn sp_offset_flags(self, off: u8) -> u8 {
        mk_flags(false, false, self.sp % 16 + off % 16 > 15, self.sp % 256 + off > 255)
    }

    /// Opcodes 0xC0..=0xFF but the CB prefix.
    #[verifier::opaque]
    pub open spec fn exec_block3(self, op: u8) -> (CpuView, u8) {
        let y = (op / 8) % 8;
        let z = op % 8;
        let p = y / 2;
        let q = y % 2;
        if z == 0 {
            if y < 4 {
                if self.cond(y) {
                    (CpuView { pc: self.pop_value(), ..self.popped() }, 20)
                } else {
                    (self, 8)
                }
            } else if y == 4 {
                let addr = (0xFF00 + self.imm8()) as u16;
                let s = self.skip(1);
                (CpuView { bus: s.bus.write(addr, s.a), ..s }, 12)
            } else if y == 5 {
                let off = self.imm8();
                let s = self.skip(1);
                (CpuView { sp: offset16(s.sp, off), f: s.sp_offset_flags(off), ..s }, 16)
            } else if y == 6 {
                let addr = (0xFF00 + self.imm8()) as u16;
                let s = self.skip(1);
                (CpuView { a: s.bus.read(addr), ..s }, 12)
            } else {
                let off = self.imm8();
                let s = self.skip(1);
                (s.set_rp(2, offset16(s.sp, off)).with_flags(s.sp_offset_flags(off)), 12)
            }
        } else if z == 1 {
            if q == 0 {
                (self.popped().set_rp2(p, self.pop_value()), 12)
            } else if p == 0 {
                (CpuView { pc: self.pop_value(), ..self.popped() }, 16)
            } else if p == 1 {
                (CpuView { pc: self.pop_value(), ime: true, ..self.popped() }, 16)
            } else if p == 2 {
                (CpuView { pc: self.hl(), ..self }, 4)
            } else {
                (CpuView { sp: self.hl(), ..self }, 8)
            }
        } else if z == 2 {
            if y < 4 {
                let target = self.imm16();
                let s = self.skip(2);
                if s.cond(y) {
                    (CpuView { pc: target, ..s }, 16)
                } else {
                    (s, 12)
                }
            } else if y == 4 {
                (CpuView { bus: self.bus.write((0xFF00 + self.c) as u16, self.a), ..self }, 8)
            } else if y == 5 {
                let addr = self.imm16();
                let s = self.skip(2);
                (CpuView { bus: s.bus.write(addr, s.a), ..s }, 16)
            } else if y == 6 {
                (CpuView { a: self.bus.read((0xFF00 + self.c) as u16), ..self }, 8)
            } else {
                let addr = self.imm16();
                let s = self.skip(2);
                (CpuView { a: s.bus.read(addr), ..s }, 16)
            }
        } else if z == 3 {
            if y == 0 {
                (CpuView { pc: self.imm16(), ..self }, 16)
            } else if y == 6 {
                (CpuView { ime: false, ime_pending: false, ..self }, 4)
            } else if y == 7 {
                (CpuView { ime_pending: true, ..self }, 4)
            } else {
                (self, 4)
            }
        } else if z == 4 {
            if y < 4 {
                let target = self.imm16();
                let s = self.skip(2);
                if s.cond(y) {
                    (CpuView { pc: target, ..s.push(s.pc) }, 24)
                } else {
                    (s, 12)
                }
            } else {
                (self, 4)
            }
        } else if z == 5 {
            if q == 0 {
                (self.push(self.rp2(p)), 16)
            } else if p == 0 {
                let target = self.imm16();
                let s = self.skip(2);
                (CpuView { pc: target, ..s.push(s.pc) }, 24)
            } else {
                (self, 4)
            }
        } else if z == 6 {
            let v = self.imm8();
            let s = self.skip(1);
            let (a, f) = alu(y, s.a, v, s.f);
            (CpuView { a, f, ..s }, 8)
        } else {
            (CpuView { pc: (y * 8) as u16, ..self.push(self.pc) }, 16)
        }
    }

    /// A CB-prefixed instruction; `self.pc` is past the 0xCB byte.
    pub open spec fn exec_cb(self) -> (CpuView, u8) {
        let op = self.imm8();
        let s = self.skip(1);
        let x = op / 64;
        let y = (op / 8) % 8;
        let z = op % 8;
        let v = s.r8(z);
        let cycles: u8 = if z == 6 {
            if x == 1 {
                12
            } else {
                16
            }
        } else {
            8
        };
        if x == 0 {
            let (r, f) = shift8(y, v, s.f);
            (s.set_r8(z, r).with_flags(f), cycles)
        } else if x == 1 {
            (s.with_flags(mk_flags((v >> y) & 1 == 0, false, true, cf(s.f))), cycles)
        } else if x == 2 {
            (s.set_r8(z, v & !(1u8 << y)), cycles)
        } else {
            (s.set_r8(z, v | (1u8 << y)), cycles)
        }
    }

    /// Executes opcode `op`, whose byte has already been fetched.
    pub open spec fn execute(self, op: u8) -> (CpuView, u8) {
        if op == 0xCB {
            self.exec_cb()
        } else if op < 0x40 {
            self.exec_block0(op)
        } else if op < 0x80 {
            self.exec_load(op)
        } else if op < 0xC0 {
            self.exec_alu(op)
        } else {
            self.exec_block3(op)
        }
    }

    /// One instruction: nothing but 4 cycles while halted; otherwise a
    /// pending EI takes effect, then the opcode at PC is fetched, PC advanced
    /// and the opcode executed.
    pub open spec fn step_spec(self) -> (CpuView, u8) {
        if self.halted {
            (self, 4)
        } else {
            let s = CpuView { ime: self.ime || self.ime_pending, ime_pending: false, ..self };
            s.skip(1).execute(s.bus.read(s.pc))
        }
    }

    /// Interrupts requested and enabled.
    pub open spec fn pending(self) -> u8 {
        self.bus.iflag & self.bus.ie & 0x1F
    }

    /// The highest-priority source among `pending`, if any.
    pub open spec fn first_pending(pending: u8) -> Option<Interrupt> {
        if pending & 0x01 != 0 {
            Some(Interrupt::VBlank)
        } else if pending & 0x02 != 0 {
            Some(Interrupt::LcdStat)
        } else if pending & 0x04 != 0 {
            Some(Interrupt::Timer)
        } else if pending & 0x08 != 0 {
            Some(Interrupt::Serial)
        } else if pending & 0x10 != 0 {
            Some(Interrupt::Joypad)
        } else {
            None
        }
    }

    /// Dispatch of interrupt `i`: IME off, its IF bit cleared, PC pushed and
    /// set to the vector.
    pub open spec fn dispatch(self, i: Interrupt) -> CpuView {
        let s = CpuView {
            ime: false,
            bus: BusView { iflag: self.bus.iflag & !pow2_u8(i.bit()), ..self.bus },
            ..self
        };
        CpuView { pc: i.vector(), ..s.push(s.pc) }
    }

    /// Wakes on any pending interrupt and, with IME set, dispatches the
    /// highest-priority one.
    pub open spec fn interrupt_spec(self) -> CpuView {
        match Self::first_pending(self.pending()) {
            None => self,
            Some(i) => {
                let s = CpuView { halted: false, ..self };
                if self.ime {
                    s.dispatch(i)
                } else {
                    s
                }
            },
        }
    }
}

/// Whether `addr` is plain read/write memory (work RAM or high RAM).
pub open spec fn is_ram(addr: u16) -> bool {
    (0xC000 <= addr <= 0xDFFF) || (0xFF80 <= addr <= 0xFFFE)
}

/// A RAM byte reads back what was last written to it, and a write elsewhere
/// in RAM leaves it alone.
pub proof fn lemma_ram_write_read(b: BusView, a: u16, other: u16, v: u8)
    requires
        b.wf(),
        is_ram(a),
        is_ram(other),
    ensures
        b.write(a, v).wf(),
        b.write(a, v).read(a) == v,
        other != a ==> b.write(a, v).read(other) == b.read(other),
{
}

proof fn lemma_stack_round_trip(s: CpuView, v: u16)
    requires
        s.wf(),
        is_ram(s.sp.wrapping_sub(1)),
        is_ram(s.sp.wrapping_sub(2)),
    ensures
        s.push(v).pop_value() == v,
        s.push(v).popped().sp == s.sp,
{
    let sp1 = s.sp.wrapping_sub(1);
    let sp2 = sp1.wrapping_sub(1);
    lemma_ram_write_read(s.bus, sp1, sp2, hi_byte(v));
    let b1 = s.bus.write(sp1, hi_byte(v));
    lemma_ram_write_read(b1, sp2, sp1, lo_byte(v));
    assert(sp2.wrapping_add(1) == sp1);
    assert(sp2.wrapping_add(2) == s.sp);
}

proof fn lemma_decode_push(s: CpuView, p: u8)
    requires
        p < 4,
    ensures
        s.exec_block3((0xC5 + 16 * p) as u8) == (s.push(s.rp2(p)), 16u8),
{
    reveal(CpuView::exec_block3);
    let op = (0xC5 + 16 * p) as u8;
    assert((op / 8) % 8 == 2 * p && op % 8 == 5);
}

proof fn lemma_decode_pop(s: CpuView, p: u8)
    requires
        p < 4,
    ensures
        s.exec_block3((0xC1 + 16 * p) as u8) == (s.popped().set_rp2(p, s.pop_value()), 12u8),
{
    reveal(CpuView::exec_block3);
    let op = (0xC1 + 16 * p) as u8;
    assert((op / 8) % 8 == 2 * p && op % 8 == 1);
}

/// PUSH rr followed at once by POP rr gives back rr and SP, when the two
/// stack bytes lie in RAM.
pub proof fn lemma_push_pop(s: CpuView, p: u8)
    requires
        s.wf(),
        p < 4,
        is_ram(s.sp.wrapping_sub(1)),
        is_ram(s.sp.wrapping_sub(2)),
    ensures
        ({
            let t = s.exec_block3((0xC5 + 16 * p) as u8).0;
            let u = t.exec_block3((0xC1 + 16 * p) as u8).0;
            u.rp2(p) == s.rp2(p) && u.sp == s.sp
        }),
{
    let v = s.rp2(p);
    lemma_decode_push(s, p);
    let t = s.push(v);
    lemma_decode_pop(t, p);
    lemma_stack_round_trip(s, v);
    let u = t.popped().set_rp2(p, v);
    assert(pair(hi_byte(v), lo_byte(v)) == v);
    if p == 3 {
        let f = s.f;
        assert(f & 0x0F == 0 ==> f & 0xF0 == f) by (bit_vector);
        assert(lo_byte(v) == f);
    }
}

/// BIT b, r changes nothing but PC and the flags: Z from the tested bit,
/// N cleared, H set, C kept.
pub proof fn lemma_bit_only_flags(s: CpuView)
    requires
        s.wf(),
        s.imm8() / 64 == 1,
    ensures
        ({
            let op = s.imm8();
            let t = s.exec_cb().0;
            let v = s.skip(1).r8(op % 8);
            &&& t == s.skip(1).with_flags(mk_flags((v >> ((op / 8) % 8)) & 1 == 0, false, true, cf(s.f)))
            &&& t.r8(op % 8) == v
        }),
{
}

} // verus!
