//! Guest linear memory: a growable byte array, grown in fixed-size pages,
//! with bounds-checked access. Every read or write must fall within the
//! current size or fails; nothing is ever read or written out of bounds.

use vstd::prelude::*;

verus! {

/// The size of one guest memory page, in bytes.
pub const PAGE_SIZE: u32 = 65536;

/// The hard engine-wide limit on guest memory, in pages (two gigabytes).
pub const MAX_MEMORY_PAGES: u32 = 32768;

/// An error from a linear-memory operation.
#[derive(Copy, Clone, PartialEq, Eq, Structural, Debug)]
pub enum MemoryError {
    /// An access fell outside the current memory size.
    OutOfBounds,
    /// A requested size exceeded the memory's page limit.
    CapacityExceeded,
}

/// The bytes of `mem` with `data` written at `off`, unchanged elsewhere.
pub open spec fn spec_write_bytes(mem: Seq<u8>, off: int, data: Seq<u8>) -> Seq<u8> {
    Seq::new(mem.len(), |i: int| if off <= i < off + data.len() { data[i - off] } else { mem[i] })
}

/// A zeroed byte sequence of `pages` guest pages.
pub open spec fn spec_zero_pages(pages: int) -> Seq<u8> {
    Seq::new((pages * PAGE_SIZE) as nat, |i: int| 0u8)
}

/// A memory within the page limit spans at most two gigabytes of bytes.
pub proof fn lemma_page_bytes_bound(pages: u32)
    requires
        pages <= MAX_MEMORY_PAGES,
    ensures
        pages * PAGE_SIZE <= 0x8000_0000,
{
    assert(pages <= 32768 ==> pages * 65536 <= 0x8000_0000) by (nonlinear_arith);
}

/// Guest-addressable linear memory, owned by an instantiated module.
pub struct LinearMemory {
    data: Vec<u8>,
    pages: u32,
    max_pages: u32,
}

impl View for LinearMemory {
    type V = Seq<u8>;

    closed spec fn view(&self) -> Seq<u8> {
        self.data@
    }
}

impl LinearMemory {
    /// The current size, in pages.
    pub closed spec fn spec_pages(&self) -> u32 {
        self.pages
    }

    /// The page limit this memory was created with.
    pub closed spec fn spec_max_pages(&self) -> u32 {
        self.max_pages
    }

    /// Structural invariant: the byte contents always span exactly the
    /// current page count, which stays within the limit.
    pub open spec fn wf(&self) -> bool {
        &&& self@.len() == self.spec_pages() * PAGE_SIZE
        &&& self.spec_pages() <= self.spec_max_pages()
        &&& self.spec_max_pages() <= MAX_MEMORY_PAGES
    }

    /// Create a zeroed memory of `initial_pages` pages that may grow up to
    /// `max_pages` pages.
    pub fn new(initial_pages: u32, max_pages: u32) -> (r: Result<LinearMemory, MemoryError>)
        ensures
            r is Ok <==> initial_pages <= max_pages <= MAX_MEMORY_PAGES,
            r is Ok ==> {
                &&& r->Ok_0.wf()
                &&& r->Ok_0.spec_pages() == initial_pages
                &&& r->Ok_0.spec_max_pages() == max_pages
                &&& r->Ok_0@ == spec_zero_pages(initial_pages as int)
            },
    {
        if initial_pages > max_pages || max_pages > MAX_MEMORY_PAGES {
            return Err(MemoryError::CapacityExceeded);
        }
        proof {
            lemma_page_bytes_bound(initial_pages);
        }
        let byte_len: usize = (initial_pages as usize) * (PAGE_SIZE as usize);
        let data: Vec<u8> = vec![0u8; byte_len];
        proof {
            assert(data@ =~= spec_zero_pages(initial_pages as int));
        }
        Ok(LinearMemory { data, pages: initial_pages, max_pages })
    }

    /// The current size, in bytes.
    pub fn byte_len(&self) -> (r: u32)
        requires
            self.wf(),
        ensures
            r == self@.len(),
    {
        self.pages * PAGE_SIZE
    }

    /// The current size, in pages.
    pub fn current_pages(&self) -> (r: u32)
        ensures
            r == self.spec_pages(),
    {
        self.pages
    }

    /// Whether the range `[offset, offset + len)` lies inside the memory.
    pub open spec fn spec_in_bounds(&self, offset: int, len: int) -> bool {
        offset + len <= self@.len()
    }

    /// Read `len` bytes starting at `offset`; fails exactly when the range
    /// exceeds the current size.
    pub fn read(&self, offset: u32, len: u32) -> (r: Result<Vec<u8>, MemoryError>)
        requires
            self.wf(),
        ensures
            r is Ok <==> self.spec_in_bounds(offset as int, len as int),
            r is Ok ==> r->Ok_0@ == self@.subrange(offset as int, offset + len),
    {
        let total = self.byte_len();
        if (offset as u64) + (len as u64) > (total as u64) {
            return Err(MemoryError::OutOfBounds);
        }
        let s = vstd::slice::slice_subrange(
            self.data.as_slice(),
            offset as usize,
            (offset + len) as usize,
        );
        Ok(vstd::slice::slice_to_vec(s))
    }

    /// Write `bytes` starting at `offset`; fails exactly when the range
    /// exceeds the current size, and then changes nothing.
    pub fn write(&mut self, offset: u32, bytes: &[u8]) -> (r: Result<(), MemoryError>)
        requires
            old(self).wf(),
        ensures
            final(self).wf(),
            final(self).spec_pages() == old(self).spec_pages(),
            final(self).spec_max_pages() == old(self).spec_max_pages(),
            r is Ok <==> old(self).spec_in_bounds(offset as int, bytes@.len() as int),
            r is Ok ==> final(self)@ == spec_write_bytes(old(self)@, offset as int, bytes@),
            r is Err ==> final(self)@ == old(self)@,
    {
        proof {
            lemma_page_bytes_bound(old(self).spec_pages());
        }
        let total = self.byte_len();
        let n = bytes.len();
        if n > u32::MAX as usize || (offset as u64) + (n as u64) > (total as u64) {
            return Err(MemoryError::OutOfBounds);
        }
        let mut i: usize = 0;
        while i < n
            invariant
                i <= n,
                n == bytes@.len(),
                offset + n <= self@.len(),
                self@.len() <= 0x8000_0000,
                self@.len() == old(self)@.len(),
                self.spec_pages() == old(self).spec_pages(),
                self.spec_max_pages() == old(self).spec_max_pages(),
                forall|j: int|
                    0 <= j < self@.len() && !(offset <= j < offset + i) ==> self@[j] == old(
                        self,
                    )@[j],
                forall|j: int| 0 <= j < i ==> self@[offset + j] == bytes@[j],
            decreases n - i,
        {
            let dst: usize = (offset as usize) + i;
            self.data[dst] = bytes[i];
            i = i + 1;
        }
        proof {
            assert(self@ =~= spec_write_bytes(old(self)@, offset as int, bytes@));
        }
        Ok(())
    }

    /// Replace the whole contents with `pages` zeroed pages; fails exactly
    /// when `pages` exceeds the page limit, and then changes nothing.
    pub fn reset(&mut self, pages: u32) -> (r: Result<(), MemoryError>)
        requires
            old(self).wf(),
        ensures
            final(self).wf(),
            final(self).spec_max_pages() == old(self).spec_max_pages(),
            r is Ok <==> pages <= old(self).spec_max_pages(),
            r is Ok ==> final(self)@ == spec_zero_pages(pages as int) && final(self).spec_pages()
                == pages,
            r is Err ==> final(self)@ == old(self)@ && final(self).spec_pages() == old(
                self,
            ).spec_pages(),
    {
        if pages > self.max_pages {
            return Err(MemoryError::CapacityExceeded);
        }
        proof {
            lemma_page_bytes_bound(pages);
        }
        let byte_len: usize = (pages as usize) * (PAGE_SIZE as usize);
        let data: Vec<u8> = vec![0u8; byte_len];
        proof {
            assert(data@ =~= spec_zero_pages(pages as int));
        }
        self.data = data;
        self.pages = pages;
        Ok(())
    }

    /// Grow the memory by `additional` zeroed pages; fails exactly when the
    /// new page count would exceed the page limit, and then changes nothing.
    pub fn grow(&mut self, additional: u32) -> (r: Result<(), MemoryError>)
        requires
            old(self).wf(),
        ensures
            final(self).wf(),
            final(self).spec_max_pages() == old(self).spec_max_pages(),
            r is Ok <==> old(self).spec_pages() + additional <= old(self).spec_max_pages(),
            r is Ok ==> {
                &&& final(self).spec_pages() == old(self).spec_pages() + additional
                &&& final(self)@ == old(self)@ + spec_zero_pages(additional as int)
            },
            r is Err ==> final(self)@ == old(self)@ && final(self).spec_pages() == old(
                self,
            ).spec_pages(),
    {
        if (self.pages as u64) + (additional as u64) > (self.max_pages as u64) {
            return Err(MemoryError::CapacityExceeded);
        }
        let new_pages = self.pages + additional;
        proof {
            lemma_page_bytes_bound(new_pages);
            lemma_page_bytes_bound(old(self).spec_pages());
        }
        let new_len: usize = (new_pages as usize) * (PAGE_SIZE as usize);
        self.data.resize(new_len, 0u8);
        self.pages = new_pages;
        proof {
            assert(self@ =~= old(self)@ + spec_zero_pages(additional as int));
        }
        Ok(())
    }
}

} // verus!
