//! Memory bus: a byte-addressable 64 KiB address space (0x0000-0xFFFF, every
//! address valid) with byte and little-endian 16-bit read/write primitives
//! and an image loader.

use vstd::prelude::*;

verus! {

/// Number of addressable bytes: the full 16-bit address space.
pub const ADDRESS_SPACE: usize = 0x10000;

/// Failure of `load_image`.
#[derive(Clone, Copy, PartialEq, Eq, Structural, Debug)]
pub enum LoadError {
    /// The image would run past address 0xFFFF; the bus was left unchanged.
    Overflow,
}

/// The little-endian 16-bit word stored at `addr`: low byte at `addr`, high
/// byte at `addr + 1` (wrapping around the top of the address space).
pub open spec fn word_at(mem: Seq<u8>, addr: u16) -> u16
    recommends
        mem.len() == ADDRESS_SPACE,
{
    (mem[addr as int] + mem[((addr + 1) % 0x10000) as int] * 256) as u16
}

/// The memory bus.
pub struct Memory {
    data: Vec<u8>,
}

impl View for Memory {
    type V = Seq<u8>;

    closed spec fn view(&self) -> Seq<u8> {
        self.data@
    }
}

impl Memory {
    /// The bus invariant: exactly one byte per 16-bit address.
    pub open spec fn wf(self) -> bool {
        self@.len() == ADDRESS_SPACE
    }

    /// A bus with every byte zero.
    pub fn new() -> (r: Memory)
        ensures
            r.wf(),
            forall|i: int| 0 <= i < ADDRESS_SPACE ==> r@[i] == 0u8,
    {
        Memory { data: vec![0u8; ADDRESS_SPACE] }
    }

    /// Read the byte at `addr`. Total: every address is valid.
    pub fn read(&self, addr: u16) -> (r: u8)
        requires
            self.wf(),
        ensures
            r == self@[addr as int],
    {
        self.data[addr as usize]
    }

    /// Write the byte at `addr`. Total: every address is valid.
    pub fn write(&mut self, addr: u16, value: u8)
        requires
            old(self).wf(),
        ensures
            final(self).wf(),
            final(self)@ == old(self)@.update(addr as int, value),
    {
        self.data.set(addr as usize, value);
    }

    /// Read the little-endian 16-bit word at `addr` (low byte first; the
    /// high byte wraps around the top of the address space).
    pub fn read16(&self, addr: u16) -> (r: u16)
        requires
            self.wf(),
        ensures
            r == word_at(self@, addr),
    {
        let lo = self.read(addr);
        let hi = self.read((addr.wrapping_add(1)));
        proof {
            assert(addr.wrapping_add(1) == (addr + 1) % 0x10000);
        }
        (lo as u16) + (hi as u16) * 256
    }

    /// Write the little-endian 16-bit word at `addr` (low byte first; the
    /// high byte wraps around the top of the address space).
    pub fn write16(&mut self, addr: u16, value: u16)
        requires
            old(self).wf(),
        ensures
            final(self).wf(),
            final(self)@ == old(self)@.update(addr as int, (value % 256) as u8).update(
                ((addr + 1) % 0x10000) as int,
                (value / 256) as u8,
            ),
            word_at(final(self)@, addr) == value,
    {
        self.write(addr, (value % 256) as u8);
        self.write(addr.wrapping_add(1), (value / 256) as u8);
        proof {
            assert(addr.wrapping_add(1) == (addr + 1) % 0x10000);
            assert(addr as int != ((addr + 1) % 0x10000) as int);
        }
    }

    /// Copy `image` into the address space starting at `base`. Fails with
    /// `LoadError::Overflow`, leaving the bus unmodified, exactly when the
    /// image would run past address 0xFFFF.
    pub fn load_image(&mut self, image: &Vec<u8>, base: u16) -> (r: Result<(), LoadError>)
        requires
            old(self).wf(),
        ensures
            final(self).wf(),
            r is Ok <==> base + image@.len() <= ADDRESS_SPACE,
            r is Ok ==> forall|i: int|
                0 <= i < image@.len() ==> final(self)@[base + i] == image@[i],
            r is Ok ==> forall|i: int|
                0 <= i < ADDRESS_SPACE && !(base <= i < base + image@.len())
                    ==> final(self)@[i] == old(self)@[i],
            r is Err ==> final(self)@ == old(self)@,
    {
        if image.len() > ADDRESS_SPACE - (base as usize) {
            return Err(LoadError::Overflow);
        }
        let mut i: usize = 0;
        while i < image.len()
            invariant
                self.wf(),
                0 <= i <= image@.len(),
                base + image@.len() <= ADDRESS_SPACE,
                forall|j: int| 0 <= j < i ==> self@[base + j] == image@[j],
                forall|j: int|
                    0 <= j < ADDRESS_SPACE && !(base <= j < base + i)
                        ==> self@[j] == old(self)@[j],
            decreases image@.len() - i,
        {
            self.write((base as usize + i) as u16, image[i]);
            i = i + 1;
        }
        Ok(())
    }
}

} // verus!
