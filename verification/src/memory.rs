use vstd::prelude::*;
use crate::fault::Fault;

verus! {

/// The memory contents after copying `data` into `mem` starting at `base`:
/// bytes inside the copied range come from `data`, every other byte keeps
/// its value.
pub open spec fn spec_loaded(mem: Seq<u8>, data: Seq<u8>, base: int) -> Seq<u8> {
    Seq::new(
        mem.len(),
        |i: int|
            if base <= i < base + data.len() {
                data[i - base]
            } else {
                mem[i]
            },
    )
}

/// A flat, byte-addressable store sized to the configured address space.
/// Every access is range-checked here, not left to the underlying storage,
/// so an out-of-range access is an attributable fault and never wraps
/// silently. 16-bit accesses are little-endian compositions of two 8-bit
/// accesses.
#[derive(Debug, PartialEq, Eq)]
pub struct Memory {
    bytes: Vec<u8>,
}

impl View for Memory {
    type V = Seq<u8>;

    closed spec fn view(&self) -> Seq<u8> {
        self.bytes@
    }
}

impl Memory {
    /// A store of `size` zeroed bytes.
    pub fn new(size: usize) -> (m: Memory)
        ensures
            m@ == Seq::new(size as nat, |i: int| 0u8),
    {
        let mut bytes: Vec<u8> = Vec::new();
        let mut i: usize = 0;
        while i < size
            invariant
                i <= size,
                bytes@ == Seq::new(i as nat, |j: int| 0u8),
            decreases size - i,
        {
            bytes.push(0);
            proof {
                assert(bytes@ =~= Seq::new((i + 1) as nat, |j: int| 0u8));
            }
            i = i + 1;
        }
        Memory { bytes }
    }

    /// The configured size of the address space in bytes.
    pub fn size(&self) -> (n: usize)
        ensures
            n == self@.len(),
    {
        self.bytes.len()
    }

    /// Read the byte at `addr`; fails with `AddressOutOfRange` when `addr`
    /// exceeds the configured size.
    pub fn read8(&self, addr: usize) -> (r: Result<u8, Fault>)
        ensures
            addr < self@.len() ==> r == Ok::<u8, Fault>(self@[addr as int]),
            addr >= self@.len() ==> r == Err::<u8, Fault>(Fault::AddressOutOfRange { addr }),
    {
        if addr < self.bytes.len() {
            Ok(self.bytes[addr])
        } else {
            Err(Fault::AddressOutOfRange { addr })
        }
    }

    /// Write `val` at `addr`; fails with `AddressOutOfRange`, leaving the
    /// store unchanged, when `addr` exceeds the configured size.
    pub fn write8(&mut self, addr: usize, val: u8) -> (r: Result<(), Fault>)
        ensures
            addr < old(self)@.len() ==> r == Ok::<(), Fault>(()) && final(self)@ == old(
                self,
            )@.update(addr as int, val),
            addr >= old(self)@.len() ==> r == Err::<(), Fault>(Fault::AddressOutOfRange { addr })
                && final(self)@ == old(self)@,
    {
        if addr < self.bytes.len() {
            self.bytes.set(addr, val);
            Ok(())
        } else {
            Err(Fault::AddressOutOfRange { addr })
        }
    }

    /// Read the little-endian 16-bit word at `addr`: low byte at `addr`,
    /// high byte at `addr + 1`. Fails when either byte is out of range.
    pub fn read16(&self, addr: usize) -> (r: Result<u16, Fault>)
        ensures
            addr + 1 < self@.len() ==> r == Ok::<u16, Fault>(
                (self@[addr + 1] * 256 + self@[addr as int]) as u16,
            ),
            addr + 1 >= self@.len() ==> r == Err::<u16, Fault>(Fault::AddressOutOfRange { addr }),
    {
        if addr < self.bytes.len() && addr + 1 < self.bytes.len() {
            let lo = self.bytes[addr];
            let hi = self.bytes[addr + 1];
            Ok((hi as u16) * 256 + (lo as u16))
        } else {
            Err(Fault::AddressOutOfRange { addr })
        }
    }

    /// Write the 16-bit word `val` at `addr` in little-endian order: low
    /// byte at `addr`, high byte at `addr + 1`. Fails, leaving the store
    /// unchanged, when either byte is out of range.
    pub fn write16(&mut self, addr: usize, val: u16) -> (r: Result<(), Fault>)
        ensures
            addr + 1 < old(self)@.len() ==> r == Ok::<(), Fault>(()) && final(self)@ == old(
                self,
            )@.update(addr as int, (val % 256) as u8).update(addr + 1, (val / 256) as u8),
            addr + 1 >= old(self)@.len() ==> r == Err::<(), Fault>(
                Fault::AddressOutOfRange { addr },
            ) && final(self)@ == old(self)@,
    {
        if addr < self.bytes.len() && addr + 1 < self.bytes.len() {
            self.bytes.set(addr, (val % 256) as u8);
            self.bytes.set(addr + 1, (val / 256) as u8);
            Ok(())
        } else {
            Err(Fault::AddressOutOfRange { addr })
        }
    }

    /// Copy `data` into the store starting at `base`. Fails, leaving the
    /// store unchanged, when the range `base .. base + data.len()` exceeds
    /// the configured size; the reported address is the base of the
    /// rejected image.
    pub fn load(&mut self, data: &Vec<u8>, base: usize) -> (r: Result<(), Fault>)
        ensures
            base + data@.len() <= old(self)@.len() ==> r == Ok::<(), Fault>(()) && final(self)@
                == spec_loaded(old(self)@, data@, base as int),
            base + data@.len() > old(self)@.len() ==> r == Err::<(), Fault>(
                Fault::AddressOutOfRange { addr: base },
            ) && final(self)@ == old(self)@,
    {
        if base <= self.bytes.len() && data.len() <= self.bytes.len() - base {
            let mut i: usize = 0;
            while i < data.len()
                invariant
                    i <= data@.len(),
                    base + data@.len() <= usize::MAX,
                    base + data@.len() <= self.bytes@.len(),
                    self.bytes@.len() == old(self)@.len(),
                    forall|j: int|
                        0 <= j < self.bytes@.len() ==> self.bytes@[j] == (if base <= j < base + i {
                            data@[j - base]
                        } else {
                            old(self)@[j]
                        }),
                decreases data@.len() - i,
            {
                self.bytes.set(base + i, data[i]);
                i = i + 1;
            }
            proof {
                assert(self.bytes@ =~= spec_loaded(old(self)@, data@, base as int));
            }
            Ok(())
        } else {
            Err(Fault::AddressOutOfRange { addr: base })
        }
    }

    /// An independent copy of the store with identical contents.
    pub fn duplicate(&self) -> (m: Memory)
        ensures
            m@ == self@,
    {
        let mut bytes: Vec<u8> = Vec::new();
        let mut i: usize = 0;
        while i < self.bytes.len()
            invariant
                i <= self.bytes@.len(),
                bytes@ == self.bytes@.subrange(0, i as int),
            decreases self.bytes@.len() - i,
        {
            bytes.push(self.bytes[i]);
            proof {
                assert(bytes@ =~= self.bytes@.subrange(0, (i + 1) as int));
            }
            i = i + 1;
        }
        proof {
            assert(bytes@ =~= self.bytes@);
        }
        Memory { bytes }
    }
}

} // verus!
