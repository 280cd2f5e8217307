use vstd::prelude::*;

verus! {

/// Number of bytes of the flat memory.
pub const MMU_SIZE: usize = 0xFFFF;

/// A flat byte array addressed by 16-bit addresses 0x0000..0xFFFE.
pub struct Mmu {
    memory: Vec<u8>,
}

impl Mmu {
    pub closed spec fn view(&self) -> Seq<u8> {
        self.memory@
    }

    pub closed spec fn wf(&self) -> bool {
        self.memory@.len() == MMU_SIZE
    }

    pub fn new() -> (r: Mmu)
        ensures
            r.wf(),
            r.view() == Seq::new(MMU_SIZE as nat, |i: int| 0u8),
    {
        let r = Mmu { memory: vec![0u8; MMU_SIZE] };
        assert(r.view() =~= Seq::new(MMU_SIZE as nat, |i: int| 0u8));
        r
    }

    pub fn read(&self, addr: u16) -> (r: u8)
        requires
            self.wf(),
            addr < MMU_SIZE,
        ensures
            r == self.view()[addr as int],
    {
        self.memory[addr as usize]
    }

    pub fn write(&mut self, addr: u16, value: u8)
        requires
            old(self).wf(),
            addr < MMU_SIZE,
        ensures
            final(self).wf(),
            final(self).view() == old(self).view().update(addr as int, value),
    {
        self.memory[addr as usize] = value;
    }
}

} // verus!
