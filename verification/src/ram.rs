//! Work RAM (8 KiB at `$C000`) and high RAM (127 bytes at `$FF80`),
//! addressed by their offset within the region.

use vstd::prelude::*;

verus! {

pub const WRAM_SIZE: u16 = 0x2000;

pub const HRAM_SIZE: u16 = 0x80;

#[derive(Debug)]
pub enum RamError {
    InvalidAddress,
}

pub struct Ram {
    pub wram: Vec<u8>,
    pub hram: Vec<u8>,
}

impl Ram {
    /// Both banks sized and zeroed.
    pub open spec fn wf(self) -> bool {
        &&& self.wram@.len() == WRAM_SIZE
        &&& self.hram@.len() == HRAM_SIZE
    }

    pub fn new() -> (r: Ram)
        ensures
            r.wf(),
            r.wram@ == Seq::new(WRAM_SIZE as nat, |i: int| 0u8),
            r.hram@ == Seq::new(HRAM_SIZE as nat, |i: int| 0u8),
    {
        let wram = vec_zeroed(WRAM_SIZE as usize);
        let hram = vec_zeroed(HRAM_SIZE as usize);
        proof {
            assert(wram@ =~= Seq::new(WRAM_SIZE as nat, |i: int| 0u8));
            assert(hram@ =~= Seq::new(HRAM_SIZE as nat, |i: int| 0u8));
        }
        Ram { wram, hram }
    }

    pub fn write_wram(&mut self, address: u16, data: u8) -> (r: Result<(), RamError>)
        requires
            old(self).wf(),
        ensures
            final(self).wf(),
            address < WRAM_SIZE ==> r is Ok && final(self).wram@ == old(self).wram@.update(
                address as int,
                data,
            ) && final(self).hram@ == old(self).hram@,
            address >= WRAM_SIZE ==> r is Err && *final(self) == *old(self),
    {
        if address >= WRAM_SIZE {
            return Err(RamError::InvalidAddress);
        }
        self.wram.set(address as usize, data);
        Ok(())
    }

    pub fn read_wram(&self, address: u16) -> (r: Result<u8, RamError>)
        requires
            self.wf(),
        ensures
            address < WRAM_SIZE ==> r == Ok::<u8, RamError>(self.wram@[address as int]),
            address >= WRAM_SIZE ==> r is Err,
    {
        if address >= WRAM_SIZE {
            return Err(RamError::InvalidAddress);
        }
        Ok(self.wram[address as usize])
    }

    pub fn write_hram(&mut self, address: u16, data: u8) -> (r: Result<(), RamError>)
        requires
            old(self).wf(),
        ensures
            final(self).wf(),
            address < HRAM_SIZE ==> r is Ok && final(self).hram@ == old(self).hram@.update(
                address as int,
                data,
            ) && final(self).wram@ == old(self).wram@,
            address >= HRAM_SIZE ==> r is Err && *final(self) == *old(self),
    {
        if address >= HRAM_SIZE {
            return Err(RamError::InvalidAddress);
        }
        self.hram.set(address as usize, data);
        Ok(())
    }

    pub fn read_hram(&self, address: u16) -> (r: Result<u8, RamError>)
        requires
            self.wf(),
        ensures
            address < HRAM_SIZE ==> r == Ok::<u8, RamError>(self.hram@[address as int]),
            address >= HRAM_SIZE ==> r is Err,
    {
        if address >= HRAM_SIZE {
            return Err(RamError::InvalidAddress);
        }
        Ok(self.hram[address as usize])
    }
}

/// A vector of `n` zero bytes.
pub fn vec_zeroed(n: usize) -> (r: Vec<u8>)
    ensures
        r@.len() == n,
        forall|i: int| 0 <= i < n ==> r@[i] == 0u8,
{
    let mut v: Vec<u8> = Vec::new();
    let mut i: usize = 0;
    while i < n
        invariant
            i <= n,
            v@.len() == i,
            forall|j: int| 0 <= j < i ==> v@[j] == 0u8,
        decreases n - i,
    {
        v.push(0);
        i += 1;
    }
    v
}

} // verus!
