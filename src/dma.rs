use vstd::prelude::*;

verus! {

/// OAM DMA register state: the last value written to 0xFF46.
#[derive(Debug, Clone, Copy, PartialEq, Eq, Structural)]
pub struct Dma {
    pub active: bool,
    pub byte: u8,
    pub start_delay: u8,
}

impl Dma {
    pub fn new() -> (r: Dma)
        ensures
            r == (Dma { active: false, byte: 0, start_delay: 0 }),
    {
        Dma { active: false, byte: 0, start_delay: 0 }
    }

    /// Records a transfer from page `value`.
    pub fn start(&mut self, value: u8)
        ensures
            *final(self) == (Dma { active: true, byte: value, start_delay: 2 }),
    {
        self.active = true;
        self.byte = value;
        self.start_delay = 2;
    }

    pub fn is_transferring(&self) -> (r: bool)
        ensures
            r == self.active,
    {
        self.active
    }
}

} // verus!
