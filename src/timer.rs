use vstd::prelude::*;

verus! {

/// DIV / TIMA / TMA / TAC. `div` is the free-running 16-bit counter whose high
/// byte is visible at 0xFF04.
#[derive(Debug, Clone, Copy, PartialEq, Eq, Structural)]
pub struct Timer {
    pub div: u16,
    pub tima: u8,
    pub tma: u8,
    pub tac: u8,
}

/// Bit of the divider whose falling edge clocks TIMA, chosen by TAC[1:0].
pub open spec fn edge_bit(tac: u8) -> u16 {
    let sel = tac & 0x03;
    if sel == 0 {
        9
    } else if sel == 1 {
        3
    } else if sel == 2 {
        5
    } else {
        7
    }
}

impl Timer {
    /// True when TIMA is clocked by moving the divider from `old_div` to `new_div`.
    pub open spec fn falling_edge(tac: u8, old_div: u16, new_div: u16) -> bool {
        &&& tac & 0x04 != 0
        &&& (old_div >> edge_bit(tac)) & 1 == 1
        &&& (new_div >> edge_bit(tac)) & 1 == 0
    }

    /// The timer after `cycles` T-cycles, and whether the Timer interrupt fires.
    pub open spec fn tick_spec(self, cycles: u8) -> (Timer, bool) {
        let nd = self.div.wrapping_add(cycles as u16);
        if Self::falling_edge(self.tac, self.div, nd) {
            if self.tima == 0xFF {
                (Timer { div: nd, tima: self.tma, ..self }, true)
            } else {
                (Timer { div: nd, tima: (self.tima + 1) as u8, ..self }, false)
            }
        } else {
            (Timer { div: nd, ..self }, false)
        }
    }

    pub open spec fn read_spec(self, addr: u16) -> u8 {
        if addr == 0xFF04 {
            (self.div >> 8) as u8
        } else if addr == 0xFF05 {
            self.tima
        } else if addr == 0xFF06 {
            self.tma
        } else if addr == 0xFF07 {
            self.tac
        } else {
            0
        }
    }

    pub open spec fn write_spec(self, addr: u16, value: u8) -> Timer {
        if addr == 0xFF04 {
            Timer { div: 0, ..self }
        } else if addr == 0xFF05 {
            Timer { tima: value, ..self }
        } else if addr == 0xFF06 {
            Timer { tma: value, ..self }
        } else if addr == 0xFF07 {
            Timer { tac: value, ..self }
        } else {
            self
        }
    }

    pub fn new() -> (r: Timer)
        ensures
            r == (Timer { div: 0, tima: 0, tma: 0, tac: 0 }),
    {
        Timer { div: 0, tima: 0, tma: 0, tac: 0 }
    }

    /// Advances the divider by `cycles`; returns true when TIMA overflowed and
    /// the Timer interrupt is to be requested.
    pub fn tick(&mut self, cycles: u8) -> (irq: bool)
        ensures
            (*final(self), irq) == old(self).tick_spec(cycles),
    {
        let old_div = self.div;
        self.div = self.div.wrapping_add(cycles as u16);
        let clock_select = self.tac & 0x03;
        let timer_enabled = (self.tac & 0x04) != 0;
        let bit_pos: u16 = if clock_select == 0 {
            9
        } else if clock_select == 1 {
            3
        } else if clock_select == 2 {
            5
        } else {
            7
        };
        let old_bit = (old_div >> bit_pos) & 1;
        let new_bit = (self.div >> bit_pos) & 1;
        if timer_enabled && old_bit == 1 && new_bit == 0 {
            return self.increment_tima();
        }
        false
    }

    fn increment_tima(&mut self) -> (overflow: bool)
        ensures
            overflow == (old(self).tima == 0xFF),
            final(self).tima == (if overflow { old(self).tma } else { (old(self).tima + 1) as u8 }),
            final(self).div == old(self).div,
            final(self).tma == old(self).tma,
            final(self).tac == old(self).tac,
    {
        if self.tima == 0xFF {
            self.tima = self.tma;
            return true;
        }
        self.tima = self.tima + 1;
        false
    }

    pub fn read(&self, addr: u16) -> (r: u8)
        ensures
            r == self.read_spec(addr),
    {
        match addr {
            0xFF04 => (self.div >> 8) as u8,
            0xFF05 => self.tima,
            0xFF06 => self.tma,
            0xFF07 => self.tac,
            _ => 0,
        }
    }

    pub fn write(&mut self, addr: u16, value: u8)
        ensures
            *final(self) == old(self).write_spec(addr, value),
    {
        match addr {
            0xFF04 => self.div = 0,
            0xFF05 => self.tima = value,
            0xFF06 => self.tma = value,
            0xFF07 => self.tac = value,
            _ => {},
        }
    }
}

/// Any write to DIV clears the whole divider, so DIV then reads back 0.
pub proof fn lemma_div_write_resets(t: Timer, v: u8)
    ensures
        t.write_spec(0xFF04, v).div == 0,
        t.write_spec(0xFF04, v).read_spec(0xFF04) == 0,
{
    assert((0u16 >> 8u16) as u8 == 0) by (bit_vector);
}

} // verus!
