//! The external image: the engine-owned byte buffer exposed to remote
//! clients, with bounds-checked little-endian accessors in place of any raw
//! reinterpretation, preserving the declared field order and sizes.

use vstd::prelude::*;

verus! {

/// The little-endian 16-bit value at `off`.
pub open spec fn le16_at(s: Seq<u8>, off: int) -> int {
    s[off] + 256 * s[off + 1]
}

/// The little-endian 32-bit value at `off`.
pub open spec fn le32_at(s: Seq<u8>, off: int) -> int {
    le16_at(s, off) + 65536 * le16_at(s, off + 2)
}

/// The little-endian 64-bit value at `off`.
pub open spec fn le64_at(s: Seq<u8>, off: int) -> int {
    le32_at(s, off) + 0x1_0000_0000 * le32_at(s, off + 4)
}

/// A fixed-size byte buffer standing for the external image. It is created
/// once, before the loop starts, with every byte zero, and only user cycle
/// logic and the bridge drain ever change it.
pub struct ExternImage {
    pub data: Vec<u8>,
}

impl ExternImage {
    /// A fresh image of `size` bytes, all zero.
    pub fn new(size: usize) -> (img: Self)
        ensures
            img.data@.len() == size,
            forall|k: int| 0 <= k < size ==> img.data@[k] == 0u8,
    {
        let mut data: Vec<u8> = Vec::new();
        let mut i: usize = 0;
        while i < size
            invariant
                0 <= i <= size,
                data@.len() == i,
                forall|k: int| 0 <= k < i ==> data@[k] == 0u8,
            decreases size - i,
        {
            data.push(0);
            i = i + 1;
        }
        ExternImage { data }
    }

    pub fn size(&self) -> (n: usize)
        ensures
            n == self.data@.len(),
    {
        self.data.len()
    }

    pub fn read_u8(&self, off: usize) -> (v: u8)
        requires
            off < self.data@.len(),
        ensures
            v == self.data@[off as int],
    {
        self.data[off]
    }

    pub fn write_u8(&mut self, off: usize, v: u8)
        requires
            off < old(self).data@.len(),
        ensures
            final(self).data@ == old(self).data@.update(off as int, v),
    {
        self.data.set(off, v);
    }

    pub fn read_u16(&self, off: usize) -> (v: u16)
        requires
            off + 2 <= self.data@.len(),
        ensures
            v == le16_at(self.data@, off as int),
    {
        proof {
            assert(off + 2 <= self.data.len());
        }
        (self.data[off] as u16) + 256 * (self.data[off + 1] as u16)
    }

    pub fn write_u16(&mut self, off: usize, v: u16)
        requires
            off + 2 <= old(self).data@.len(),
        ensures
            final(self).data@.len() == old(self).data@.len(),
            forall|k: int|
                0 <= k < old(self).data@.len() && !(off <= k < off + 2)
                    ==> final(self).data@[k] == old(self).data@[k],
            le16_at(final(self).data@, off as int) == v,
    {
        proof {
            assert(off + 2 <= self.data.len());
        }
        self.data.set(off, (v % 256) as u8);
        self.data.set(off + 1, (v / 256) as u8);
    }

    pub fn read_u32(&self, off: usize) -> (v: u32)
        requires
            off + 4 <= self.data@.len(),
        ensures
            v == le32_at(self.data@, off as int),
    {
        proof {
            assert(off + 4 <= self.data.len());
        }
        let lo = self.read_u16(off);
        let hi = self.read_u16(off + 2);
        (lo as u32) + 65536 * (hi as u32)
    }

    pub fn write_u32(&mut self, off: usize, v: u32)
        requires
            off + 4 <= old(self).data@.len(),
        ensures
            final(self).data@.len() == old(self).data@.len(),
            forall|k: int|
                0 <= k < old(self).data@.len() && !(off <= k < off + 4)
                    ==> final(self).data@[k] == old(self).data@[k],
            le32_at(final(self).data@, off as int) == v,
    {
        proof {
            assert(off + 4 <= self.data.len());
        }
        self.write_u16(off, (v % 65536) as u16);
        self.write_u16(off + 2, (v / 65536) as u16);
    }

    pub fn read_u64(&self, off: usize) -> (v: u64)
        requires
            off + 8 <= self.data@.len(),
        ensures
            v == le64_at(self.data@, off as int),
    {
        proof {
            assert(off + 8 <= self.data.len());
        }
        let lo = self.read_u32(off);
        let hi = self.read_u32(off + 4);
        (lo as u64) + 0x1_0000_0000 * (hi as u64)
    }

    pub fn write_u64(&mut self, off: usize, v: u64)
        requires
            off + 8 <= old(self).data@.len(),
        ensures
            final(self).data@.len() == old(self).data@.len(),
            forall|k: int|
                0 <= k < old(self).data@.len() && !(off <= k < off + 8)
                    ==> final(self).data@[k] == old(self).data@[k],
            le64_at(final(self).data@, off as int) == v,
    {
        proof {
            assert(off + 8 <= self.data.len());
        }
        self.write_u32(off, (v % 0x1_0000_0000) as u32);
        self.write_u32(off + 4, (v / 0x1_0000_0000) as u32);
    }
}

} // verus!
