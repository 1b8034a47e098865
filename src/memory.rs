use vstd::prelude::*;

verus! {

/// Why a memory access was refused.
#[derive(Debug, Clone, Copy, PartialEq, Eq, Structural)]
pub enum MemoryError {
    /// The access touches `offset`, which lies outside a buffer of `len` bytes.
    OutOfBounds { offset: usize, len: usize },
    /// A range whose start lies after its end.
    InvalidRange { start: u16, end: u16 },
}

/// A fixed-length, bounds-checked byte buffer.
pub struct Memory {
    data: Vec<u8>,
}

impl View for Memory {
    type V = Seq<u8>;

    closed spec fn view(&self) -> Seq<u8> {
        self.data@
    }
}

/// What `read8` returns on a buffer holding `mem`.
pub open spec fn read8_result(mem: Seq<u8>, offset: u16) -> Result<u8, MemoryError> {
    if (offset as int) < mem.len() {
        Ok(mem[offset as int])
    } else {
        Err(MemoryError::OutOfBounds { offset: offset as usize, len: mem.len() as usize })
    }
}

/// The big-endian word made of a high byte and a low byte.
pub open spec fn word_of(hi: u8, lo: u8) -> u16 {
    (hi as int * 256 + lo as int) as u16
}

/// What `read16` returns on a buffer holding `mem`.
pub open spec fn read16_result(mem: Seq<u8>, offset: u16) -> Result<u16, MemoryError> {
    if (offset as int) + 1 < mem.len() {
        Ok(word_of(mem[offset as int], mem[offset + 1]))
    } else {
        Err(MemoryError::OutOfBounds { offset: (offset + 1) as usize, len: mem.len() as usize })
    }
}

/// The buffer after a 16-bit big-endian store that fits.
pub open spec fn store16(mem: Seq<u8>, offset: int, value: u16) -> Seq<u8> {
    mem.update(offset, (value / 256) as u8).update(offset + 1, (value % 256) as u8)
}

/// How `write8_range` judges its bounds.
pub open spec fn range_result(len: nat, start: u16, end: u16) -> Result<(), MemoryError> {
    if start == end {
        Ok(())
    } else if start > end {
        Err(MemoryError::InvalidRange { start, end })
    } else if end as int > len {
        Err(MemoryError::OutOfBounds { offset: (end - 1) as usize, len: len as usize })
    } else {
        Ok(())
    }
}

/// How many bytes a range copy moves: the range or the content, whichever is shorter.
pub open spec fn copied_len(start: u16, end: u16, content_len: nat) -> int {
    if end as int - start as int <= content_len {
        end as int - start as int
    } else {
        content_len as int
    }
}

/// The buffer after copying `content` into `[start, end)`, as far as `content` reaches.
pub open spec fn copy_range(mem: Seq<u8>, start: u16, end: u16, content: Seq<u8>) -> Seq<u8> {
    Seq::new(
        mem.len(),
        |k: int|
            if start <= k < start + copied_len(start, end, content.len()) {
                content[k - start]
            } else {
                mem[k]
            },
    )
}

impl Memory {
    /// A zero-filled buffer of `size` bytes.
    pub fn new(size: u16) -> (r: Self)
        ensures
            r@ == Seq::new(size as nat, |k: int| 0u8),
    {
        let mut data: Vec<u8> = Vec::new();
        let mut k: u16 = 0;
        while k < size
            invariant
                k <= size,
                data@ == Seq::new(k as nat, |j: int| 0u8),
            decreases size - k,
        {
            data.push(0);
            k = k + 1;
            assert(data@ =~= Seq::new(k as nat, |j: int| 0u8));
        }
        Memory { data }
    }

    /// The capacity in bytes.
    pub fn len(&self) -> (r: usize)
        ensures
            r == self@.len(),
    {
        self.data.len()
    }

    pub fn read8(&self, offset: u16) -> (r: Result<u8, MemoryError>)
        ensures
            r == read8_result(self@, offset),
    {
        if offset as usize >= self.data.len() {
            return Err(MemoryError::OutOfBounds { offset: offset as usize, len: self.data.len() });
        }
        Ok(self.data[offset as usize])
    }

    /// Reads a big-endian word: the high byte at `offset`, the low byte after it.
    pub fn read16(&self, offset: u16) -> (r: Result<u16, MemoryError>)
        ensures
            r == read16_result(self@, offset),
    {
        if offset as usize + 1 >= self.data.len() {
            return Err(
                MemoryError::OutOfBounds { offset: offset as usize + 1, len: self.data.len() },
            );
        }
        let msb = self.data[offset as usize];
        let lsb = self.data[offset as usize + 1];
        Ok(msb as u16 * 256 + lsb as u16)
    }

    pub fn write8(&mut self, offset: u16, value: u8) -> (r: Result<(), MemoryError>)
        ensures
            r is Ok <==> (offset as int) < old(self)@.len(),
            r is Err ==> r == Err::<(), MemoryError>(
                MemoryError::OutOfBounds { offset: offset as usize, len: old(self)@.len() as usize },
            ),
            final(self)@ == if r is Ok {
                old(self)@.update(offset as int, value)
            } else {
                old(self)@
            },
    {
        if offset as usize >= self.data.len() {
            return Err(MemoryError::OutOfBounds { offset: offset as usize, len: self.data.len() });
        }
        self.data.set(offset as usize, value);
        Ok(())
    }

    /// Writes a big-endian word: the high byte at `offset`, the low byte after it.
    pub fn write16(&mut self, offset: u16, value: u16) -> (r: Result<(), MemoryError>)
        ensures
            r is Ok <==> (offset as int) + 1 < old(self)@.len(),
            r is Err ==> r == Err::<(), MemoryError>(
                MemoryError::OutOfBounds {
                    offset: (offset + 1) as usize,
                    len: old(self)@.len() as usize,
                },
            ),
            final(self)@ == if r is Ok {
                store16(old(self)@, offset as int, value)
            } else {
                old(self)@
            },
    {
        if offset as usize + 1 >= self.data.len() {
            return Err(
                MemoryError::OutOfBounds { offset: offset as usize + 1, len: self.data.len() },
            );
        }
        self.data.set(offset as usize, (value / 256) as u8);
        self.data.set(offset as usize + 1, (value % 256) as u8);
        Ok(())
    }

    /// Copies `content` into `[start, end)`, stopping early where `content` is shorter.
    /// An empty range does nothing; a reversed range or one past the end is refused.
    pub fn write8_range(&mut self, start: u16, end: u16, content: &[u8]) -> (r: Result<
        (),
        MemoryError,
    >)
        ensures
            r == range_result(old(self)@.len(), start, end),
            final(self)@ == if r is Ok {
                copy_range(old(self)@, start, end, content@)
            } else {
                old(self)@
            },
    {
        if start == end {
            assert(copy_range(self@, start, end, content@) =~= self@);
            return Ok(());
        }
        if start > end {
            return Err(MemoryError::InvalidRange { start, end });
        }
        if end as usize > self.data.len() {
            return Err(
                MemoryError::OutOfBounds { offset: (end - 1) as usize, len: self.data.len() },
            );
        }
        let count: usize = if (end - start) as usize <= content.len() {
            (end - start) as usize
        } else {
            content.len()
        };
        let ghost before = self@;
        let mut k: usize = 0;
        while k < count
            invariant
                count == copied_len(start, end, content@.len()),
                start as int + count <= before.len(),
                k <= count,
                self@.len() == before.len(),
                forall|j: int|
                    0 <= j < before.len() ==> #[trigger] self@[j] == if start <= j < start + k {
                        content@[j - start]
                    } else {
                        before[j]
                    },
            decreases count - k,
        {
            self.data.set(start as usize + k, content[k]);
            k = k + 1;
        }
        assert(self@ =~= copy_range(before, start, end, content@));
        Ok(())
    }
}

} // verus!
