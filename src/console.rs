//! An in-memory text-mode console: a run of bytes laid out as two-byte
//! cells (character, attribute), with a record of every byte written.

use vstd::prelude::*;

verus! {

/// One byte written to the console: where, and what.
#[derive(Clone, Copy, Debug, PartialEq, Eq, Structural)]
pub struct ByteWrite {
    pub offset: usize,
    pub value: u8,
}

/// A console region of fixed length that remembers the order of its writes.
///
/// Nothing reads it back but an observer: the programs only write.
#[derive(Debug)]
pub struct TextBuffer {
    bytes: Vec<u8>,
    log: Vec<ByteWrite>,
}

impl TextBuffer {
    /// The bytes of the region, offset by offset.
    pub closed spec fn cells(&self) -> Seq<u8> {
        self.bytes@
    }

    /// Every write made so far, oldest first.
    pub closed spec fn writes(&self) -> Seq<ByteWrite> {
        self.log@
    }

    /// A region of `len` zero bytes with no writes yet.
    pub fn new(len: usize) -> (r: TextBuffer)
        ensures
            r.cells() == Seq::new(len as nat, |j: int| 0u8),
            r.writes() == Seq::<ByteWrite>::empty(),
    {
        let mut bytes: Vec<u8> = Vec::new();
        let mut i: usize = 0;
        while i < len
            invariant
                i <= len,
                bytes@ == Seq::new(i as nat, |j: int| 0u8),
            decreases len - i,
        {
            bytes.push(0u8);
            i = i + 1;
            assert(bytes@ =~= Seq::new(i as nat, |j: int| 0u8));
        }
        TextBuffer { bytes, log: Vec::new() }
    }

    /// A region holding `bytes` as it is, with no writes yet.
    pub fn from_bytes(bytes: Vec<u8>) -> (r: TextBuffer)
        ensures
            r.cells() == bytes@,
            r.writes() == Seq::<ByteWrite>::empty(),
    {
        TextBuffer { bytes, log: Vec::new() }
    }

    /// The number of bytes in the region.
    pub fn len(&self) -> (r: usize)
        ensures
            r == self.cells().len(),
    {
        self.bytes.len()
    }

    /// The byte at `offset`.
    pub fn byte_at(&self, offset: usize) -> (r: u8)
        requires
            offset < self.cells().len(),
        ensures
            r == self.cells()[offset as int],
    {
        self.bytes[offset]
    }

    /// A copy of the region's bytes.
    pub fn to_bytes(&self) -> (r: Vec<u8>)
        ensures
            r@ == self.cells(),
    {
        self.bytes.clone()
    }

    /// The number of writes made so far.
    pub fn write_count(&self) -> (r: usize)
        ensures
            r == self.writes().len(),
    {
        self.log.len()
    }

    /// The write made `k`-th, counting from zero.
    pub fn write_at(&self, k: usize) -> (r: ByteWrite)
        requires
            k < self.writes().len(),
        ensures
            r == self.writes()[k as int],
    {
        self.log[k]
    }

    /// Stores `value` at `offset` and records the write.
    pub fn write_byte(&mut self, offset: usize, value: u8)
        requires
            offset < old(self).cells().len(),
        ensures
            final(self).cells() == old(self).cells().update(offset as int, value),
            final(self).writes() == old(self).writes().push(ByteWrite { offset, value }),
    {
        self.bytes.set(offset, value);
        self.log.push(ByteWrite { offset, value });
    }

    /// Writes cell `index`: its character byte, then its attribute byte.
    pub fn write_cell(&mut self, index: usize, ch: u8, attr: u8)
        requires
            2 * index + 1 < old(self).cells().len(),
        ensures
            final(self).cells() == old(self).cells().update(2 * index as int, ch).update(
                2 * index + 1,
                attr,
            ),
            final(self).writes() == old(self).writes().push(
                ByteWrite { offset: (2 * index) as usize, value: ch },
            ).push(ByteWrite { offset: (2 * index + 1) as usize, value: attr }),
    {
        let len: usize = self.len();
        assert(2 * index + 1 < len);
        self.write_byte(2 * index, ch);
        self.write_byte(2 * index + 1, attr);
    }
}

} // verus!
