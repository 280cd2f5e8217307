use vstd::prelude::*;

verus! {

/// The five interrupt sources, in priority order (VBlank highest).
#[derive(Debug, Clone, Copy, PartialEq, Eq, Structural)]
pub enum Interrupt {
    VBlank,
    LcdStat,
    Timer,
    Serial,
    Joypad,
}

impl Interrupt {
    /// Bit number of this source in IE / IF.
    pub open spec fn bit(self) -> nat {
        match self {
            Interrupt::VBlank => 0,
            Interrupt::LcdStat => 1,
            Interrupt::Timer => 2,
            Interrupt::Serial => 3,
            Interrupt::Joypad => 4,
        }
    }

    pub open spec fn vector(self) -> u16 {
        (0x0040 + 8 * self.bit()) as u16
    }

    pub open spec fn from_bit(b: nat) -> Interrupt
        recommends
            b < 5,
    {
        if b == 0 {
            Interrupt::VBlank
        } else if b == 1 {
            Interrupt::LcdStat
        } else if b == 2 {
            Interrupt::Timer
        } else if b == 3 {
            Interrupt::Serial
        } else {
            Interrupt::Joypad
        }
    }

    /// Address the CPU jumps to when dispatching this interrupt.
    pub fn handler_address(&self) -> (r: u16)
        ensures
            r == self.vector(),
    {
        match self {
            Interrupt::VBlank => 0x0040,
            Interrupt::LcdStat => 0x0048,
            Interrupt::Timer => 0x0050,
            Interrupt::Serial => 0x0058,
            Interrupt::Joypad => 0x0060,
        }
    }

    /// The single IE / IF bit that belongs to this source.
    pub fn mask(&self) -> (r: u8)
        ensures
            r == pow2_u8(self.bit()),
    {
        match self {
            Interrupt::VBlank => 0x01,
            Interrupt::LcdStat => 0x02,
            Interrupt::Timer => 0x04,
            Interrupt::Serial => 0x08,
            Interrupt::Joypad => 0x10,
        }
    }

    /// All sources, highest priority first.
    pub fn iterate() -> (r: [Interrupt; 5])
        ensures
            forall|i: int| 0 <= i < 5 ==> #[trigger] r@[i] == Interrupt::from_bit(i as nat),
    {
        [
            Interrupt::VBlank,
            Interrupt::LcdStat,
            Interrupt::Timer,
            Interrupt::Serial,
            Interrupt::Joypad,
        ]
    }
}

/// `2^b` for the bit numbers of an 8-bit register.
pub open spec fn pow2_u8(b: nat) -> u8 {
    if b == 0 {
        1
    } else if b == 1 {
        2
    } else if b == 2 {
        4
    } else if b == 3 {
        8
    } else if b == 4 {
        16
    } else if b == 5 {
        32
    } else if b == 6 {
        64
    } else {
        128
    }
}

} // verus!
