//! The guest allocator: a bump allocator with size-classed free lists over
//! a region of guest linear memory above a fixed heap base.
//!
//! Fresh regions are bump-allocated, growing the guest memory page by page
//! on demand up to its page limit. Freed regions go to size-classed free
//! lists that later allocations of the same class consult before bumping
//! further. No two live allocations ever overlap; freeing a pointer that
//! was never returned, or freeing one twice, is an explicit error that
//! leaves every other allocation intact.

use vstd::prelude::*;
use crate::memory::{lemma_page_bytes_bound, LinearMemory, PAGE_SIZE};
use crate::values::Pointer;

verus! {

/// The largest single allocation the allocator serves, in bytes.
pub const MAX_ALLOCATION: u32 = 16777216;

/// An error from an allocator operation.
#[derive(Copy, Clone, PartialEq, Eq, Structural, Debug)]
pub enum AllocError {
    /// The allocation could not be served: the request was over the size
    /// limit, or growing the guest memory was refused.
    OutOfMemory,
    /// The freed pointer was null or was never returned by `allocate`.
    InvalidPointer,
    /// The freed pointer had already been freed.
    DoubleFree,
}

/// One block the allocator has handed out at some point: its guest
/// address, its size-class width in bytes, and whether it is still live.
#[derive(Copy, Clone, PartialEq, Eq, Structural, Debug)]
pub struct AllocRecord {
    /// Guest address of the block.
    pub ptr: u32,
    /// Width of the block's size class, in bytes.
    pub size: u32,
    /// Whether the block is currently allocated.
    pub live: bool,
}

/// Two blocks occupy non-overlapping address ranges.
pub open spec fn spec_disjoint(a: AllocRecord, b: AllocRecord) -> bool {
    a.ptr + a.size <= b.ptr || b.ptr + b.size <= a.ptr
}

/// Whether any block, live or freed, sits at address `addr` in `recs`.
pub open spec fn spec_contains_ptr(recs: Seq<AllocRecord>, addr: u32) -> bool {
    exists|i: int| 0 <= i < recs.len() && (#[trigger] recs[i]).ptr == addr
}

/// The lowest address a heap over `heap_base` serves blocks above.
pub open spec fn spec_effective_base(heap_base: u32) -> u32 {
    if heap_base >= 8 {
        heap_base
    } else {
        8
    }
}

/// Whether `recs` holds a freed block of size class `size`, available for
/// reuse.
pub open spec fn spec_has_free_block(recs: Seq<AllocRecord>, size: u32) -> bool {
    exists|i: int|
        0 <= i < recs.len() && !(#[trigger] recs[i]).live && recs[i].size == size
}

/// The width of the size class searched from `size` upwards that serves a
/// request of `len` bytes.
pub open spec fn spec_block_size_from(size: u32, len: u32) -> u32
    decreases MAX_ALLOCATION - size,
    when 8 <= size <= MAX_ALLOCATION
{
    if size >= len {
        size
    } else if size > MAX_ALLOCATION / 2 {
        MAX_ALLOCATION
    } else {
        spec_block_size_from((size * 2) as u32, len)
    }
}

/// The width of the size class that serves a request of `len` bytes: the
/// smallest power-of-two width of at least eight bytes that holds `len`,
/// capped at the allocation limit.
pub open spec fn spec_block_size(len: u32) -> u32 {
    spec_block_size_from(8, len)
}

/// The size class of an admissible request holds the request and stays
/// within the size-class range.
pub proof fn lemma_block_size_bounds(len: u32)
    requires
        len <= MAX_ALLOCATION,
    ensures
        8 <= spec_block_size(len) <= MAX_ALLOCATION,
        spec_block_size(len) >= len,
{
    lemma_block_size_from_bounds(8, len);
}

/// Bounds of the size-class search, from any admissible starting width.
proof fn lemma_block_size_from_bounds(size: u32, len: u32)
    requires
        8 <= size <= MAX_ALLOCATION,
        len <= MAX_ALLOCATION,
    ensures
        size <= spec_block_size_from(size, len) <= MAX_ALLOCATION,
        spec_block_size_from(size, len) >= len,
    decreases MAX_ALLOCATION - size,
{
    if size >= len {
    } else if size > MAX_ALLOCATION / 2 {
    } else {
        lemma_block_size_from_bounds((size * 2) as u32, len);
    }
}

/// Rounding up to whole pages stays within `q` pages when the need does.
proof fn lemma_ceil_div_le(x: int, p: int, q: int)
    requires
        p > 0,
        0 <= x,
        0 <= q,
        x <= q * p,
    ensures
        (x + p - 1) / p <= q,
{
    vstd::arithmetic::div_mod::lemma_fundamental_div_mod(x + p - 1, p);
    let k = (x + p - 1) / p;
    let r = (x + p - 1) % p;
    assert(p * k == x + p - 1 - r);
    assert(p * k <= q * p + p - 1);
    assert(p * k < (q + 1) * p) by (nonlinear_arith)
        requires
            p * k <= q * p + p - 1,
            p > 0,
    ;
    assert(k < q + 1) by (nonlinear_arith)
        requires
            p * k < (q + 1) * p,
            p > 0,
    ;
}

/// The bump and free-list allocator state. The block records double as the
/// free lists: a dead record of the right size class is reused before the
/// bump pointer moves.
pub struct GuestAllocator {
    base: u32,
    bump: u32,
    records: Vec<AllocRecord>,
}

impl GuestAllocator {
    /// The lowest guest address the allocator ever hands out.
    pub closed spec fn spec_base(&self) -> u32 {
        self.base
    }

    /// The bump pointer: every block ever handed out ends at or below it.
    pub closed spec fn spec_bump(&self) -> u32 {
        self.bump
    }

    /// All blocks handed out so far, live and freed.
    pub closed spec fn spec_records(&self) -> Seq<AllocRecord> {
        self.records@
    }

    /// Structural invariant: blocks lie between the heap base and the bump
    /// pointer, carry sane size classes, and are pairwise disjoint.
    pub open spec fn wf(&self) -> bool {
        &&& 8 <= self.spec_base() <= self.spec_bump()
        &&& forall|i: int|
            0 <= i < self.spec_records().len() ==> {
                &&& 8 <= (#[trigger] self.spec_records()[i]).size <= MAX_ALLOCATION
                &&& self.spec_base() <= self.spec_records()[i].ptr
                &&& self.spec_records()[i].ptr + self.spec_records()[i].size <= self.spec_bump()
            }
        &&& forall|i: int, j: int|
            0 <= i < j < self.spec_records().len() ==> spec_disjoint(
                #[trigger] self.spec_records()[i],
                #[trigger] self.spec_records()[j],
            )
    }

    /// Whether some block at address `addr` is currently allocated.
    pub open spec fn spec_is_live(&self, addr: u32) -> bool {
        exists|i: int|
            0 <= i < self.spec_records().len() && (#[trigger] self.spec_records()[i]).ptr == addr
                && self.spec_records()[i].live
    }

    /// The current bump pointer.
    pub fn bump_value(&self) -> (r: u32)
        ensures
            r == self.spec_bump(),
    {
        self.bump
    }

    /// Create a fresh allocator that serves blocks above `heap_base`.
    pub fn new(heap_base: u32) -> (r: GuestAllocator)
        ensures
            r.wf(),
            r.spec_base() == if heap_base >= 8 {
                heap_base
            } else {
                8u32
            },
            r.spec_bump() == r.spec_base(),
            r.spec_records() == Seq::<AllocRecord>::empty(),
            forall|a: u32| !r.spec_is_live(a),
    {
        let base: u32 = if heap_base >= 8 {
            heap_base
        } else {
            8
        };
        let r = GuestAllocator { base, bump: base, records: Vec::new() };
        proof {
            assert(r.spec_records() =~= Seq::<AllocRecord>::empty());
        }
        r
    }

    /// Allocate a block of at least `len` bytes inside `mem`, reusing a
    /// freed block of the matching size class if one exists and bumping
    /// into fresh memory otherwise, growing `mem` page by page on demand.
    ///
    /// Succeeds exactly when the request is within the size limit and a
    /// freed block of the matching class exists or the block fits below
    /// the memory's page limit. On success the returned pointer is
    /// non-null, was not live before, is live afterwards, and its block —
    /// exactly one size class wide, holding the whole requested length —
    /// lies inside `mem`; no other block's state changes, and the bytes of
    /// `mem` are untouched but for zeroed pages appended by growth. When a
    /// freed block of the class exists it is reused: the bump pointer, the
    /// block list and the memory stay put, so repeated allocate/deallocate
    /// rounds keep heap usage bounded. On failure nothing changes at all.
    pub fn allocate(&mut self, mem: &mut LinearMemory, len: u32) -> (r: Result<
        Pointer<u8>,
        AllocError,
    >)
        requires
            old(self).wf(),
            old(mem).wf(),
            old(self).spec_bump() <= old(mem)@.len(),
        ensures
            final(self).wf(),
            final(mem).wf(),
            final(self).spec_base() == old(self).spec_base(),
            final(self).spec_bump() <= final(mem)@.len(),
            final(mem).spec_max_pages() == old(mem).spec_max_pages(),
            final(mem)@.len() >= old(mem)@.len(),
            forall|k: int| 0 <= k < old(mem)@.len() ==> final(mem)@[k] == old(mem)@[k],
            r is Ok <==> len <= MAX_ALLOCATION && (spec_has_free_block(
                old(self).spec_records(),
                spec_block_size(len),
            ) || old(self).spec_bump() + spec_block_size(len) <= old(mem).spec_max_pages()
                * PAGE_SIZE),
            r is Ok ==> {
                &&& r->Ok_0.addr() != 0
                &&& r->Ok_0.addr() >= old(self).spec_base()
                &&& !old(self).spec_is_live(r->Ok_0.addr())
                &&& final(self).spec_is_live(r->Ok_0.addr())
                &&& r->Ok_0.addr() + len <= final(mem)@.len()
                &&& forall|a: u32|
                    a != r->Ok_0.addr() ==> final(self).spec_is_live(a) == old(
                        self,
                    ).spec_is_live(a)
                &&& exists|k: int|
                    0 <= k < final(self).spec_records().len() && (
                    #[trigger] final(self).spec_records()[k]).ptr == r->Ok_0.addr() && final(self).spec_records()[k].size == spec_block_size(len) && final(self).spec_records()[k].live
            },
            (r is Ok && spec_has_free_block(old(self).spec_records(), spec_block_size(len)))
                ==> {
                &&& final(self).spec_bump() == old(self).spec_bump()
                &&& final(self).spec_records().len() == old(self).spec_records().len()
                &&& final(mem)@ == old(mem)@
                &&& spec_contains_ptr(old(self).spec_records(), r->Ok_0.addr())
            },
            r is Err ==> {
                &&& final(self).spec_records() == old(self).spec_records()
                &&& final(self).spec_bump() == old(self).spec_bump()
                &&& final(mem)@ == old(mem)@
                &&& r->Err_0 == AllocError::OutOfMemory
            },
    {
        if len > MAX_ALLOCATION {
            return Err(AllocError::OutOfMemory);
        }
        let size = block_size_for(len);
        // Consult the free lists first: a freed block of the same size
        // class is reused as it stands.
        let n = self.records.len();
        let mut i: usize = 0;
        while i < n
            invariant
                self.wf(),
                self.spec_records() == old(self).spec_records(),
                self.spec_base() == old(self).spec_base(),
                self.spec_bump() == old(self).spec_bump(),
                mem.wf(),
                mem@ == old(mem)@,
                mem.spec_pages() == old(mem).spec_pages(),
                mem.spec_max_pages() == old(mem).spec_max_pages(),
                self.spec_bump() <= mem@.len(),
                n == self.spec_records().len(),
                i <= n,
                8 <= size <= MAX_ALLOCATION,
                size >= len,
                size == spec_block_size(len),
                forall|k: int|
                    0 <= k < i ==> !(!(#[trigger] self.spec_records()[k]).live
                        && self.spec_records()[k].size == size),
            decreases n - i,
        {
            let rec = self.records[i];
            if !rec.live && rec.size == size {
                self.records[i] = AllocRecord { ptr: rec.ptr, size: rec.size, live: true };
                proof {
                    let recs = old(self).spec_records();
                    let updated = AllocRecord { ptr: rec.ptr, size: rec.size, live: true };
                    assert(self.spec_records() =~= recs.update(i as int, updated));
                    lemma_ptrs_unique_at(recs, i as int, old(self).spec_base(), old(self).spec_bump());
                    assert(!old(self).spec_is_live(rec.ptr)) by {
                        assert forall|k: int|
                            0 <= k < recs.len() implies !((#[trigger] recs[k]).ptr == rec.ptr
                            && recs[k].live) by {
                            if k != i as int {
                                assert(recs[k].ptr != rec.ptr);
                            }
                        }
                    }
                    assert(self.spec_is_live(rec.ptr)) by {
                        assert(self.spec_records()[i as int].ptr == rec.ptr
                            && self.spec_records()[i as int].live);
                    }
                    assert forall|a: u32| a != rec.ptr implies self.spec_is_live(a) == old(
                        self,
                    ).spec_is_live(a) by {
                        lemma_is_live_update_other(recs, self.spec_records(), i as int, a);
                    }
                    assert(rec.ptr + size <= old(self).spec_bump());
                    assert(spec_has_free_block(recs, spec_block_size(len))) by {
                        assert(!recs[i as int].live && recs[i as int].size == spec_block_size(
                            len,
                        ));
                    }
                    assert(self.spec_records()[i as int].ptr == rec.ptr
                        && self.spec_records()[i as int].size == spec_block_size(len)
                        && self.spec_records()[i as int].live);
                    assert(spec_contains_ptr(recs, rec.ptr)) by {
                        assert(recs[i as int].ptr == rec.ptr);
                    }
                }
                return Ok(Pointer::new(rec.ptr));
            }
            i = i + 1;
        }
        proof {
            assert(!spec_has_free_block(old(self).spec_records(), spec_block_size(len)));
        }
        // Nothing reusable: bump-allocate a fresh block, growing the guest
        // memory if the block reaches beyond its current size.
        let ptr = self.bump;
        let end: u64 = (ptr as u64) + (size as u64);
        let cur: u64 = mem.byte_len() as u64;
        if end > cur {
            let needed: u64 = end - cur;
            let page: u64 = PAGE_SIZE as u64;
            let pages_needed: u64 = (needed + page - 1) / page;
            proof {
                vstd::arithmetic::div_mod::lemma_fundamental_div_mod(
                    needed + page - 1,
                    page as int,
                );
                lemma_ceil_div_le(needed as int, page as int, 131072);
            }
            let grown = mem.grow(pages_needed as u32);
            match grown {
                Ok(()) => {
                    proof {
                        assert(pages_needed * page >= needed);
                        assert(mem@.len() >= cur + needed);
                    }
                },
                Err(_) => {
                    proof {
                        let max = old(mem).spec_max_pages() as int;
                        let pages = mem.spec_pages() as int;
                        let p = PAGE_SIZE as int;
                        if old(self).spec_bump() + spec_block_size(len) <= max * p {
                            assert(cur == pages * p);
                            assert(needed <= max * p - pages * p);
                            assert(max * p - pages * p == (max - pages) * p);
                            lemma_ceil_div_le(needed as int, p, max - pages);
                            assert(pages_needed <= max - pages);
                            assert(false);
                        }
                    }
                    return Err(AllocError::OutOfMemory);
                },
            }
        }
        proof {
            lemma_page_bytes_bound(mem.spec_pages());
            assert(end <= mem@.len());
        }
        let new_bump = ptr + size;
        self.bump = new_bump;
        let fresh = AllocRecord { ptr, size, live: true };
        self.records.push(fresh);
        proof {
            let recs = old(self).spec_records();
            assert(self.spec_records() =~= recs.push(fresh));
            assert forall|k: int| 0 <= k < recs.len() implies spec_disjoint(
                #[trigger] recs[k],
                fresh,
            ) by {
                assert(recs[k].ptr + recs[k].size <= ptr);
            }
            assert(!old(self).spec_is_live(ptr)) by {
                assert forall|k: int| 0 <= k < recs.len() implies !((#[trigger] recs[k]).ptr
                    == ptr && recs[k].live) by {
                    assert(recs[k].ptr + recs[k].size <= ptr && recs[k].size >= 8);
                }
            }
            assert(self.spec_is_live(ptr)) by {
                assert(self.spec_records()[recs.len() as int].ptr == ptr
                    && self.spec_records()[recs.len() as int].live);
            }
            assert(self.spec_records()[recs.len() as int].size == spec_block_size(len));
            assert forall|a: u32| a != ptr implies self.spec_is_live(a) == old(
                self,
            ).spec_is_live(a) by {
                if old(self).spec_is_live(a) {
                    let k = choose|k: int|
                        0 <= k < recs.len() && (#[trigger] recs[k]).ptr == a && recs[k].live;
                    assert(self.spec_records()[k].ptr == a && self.spec_records()[k].live);
                }
                if self.spec_is_live(a) {
                    let k = choose|k: int|
                        0 <= k < self.spec_records().len() && (
                        #[trigger] self.spec_records()[k]).ptr == a
                            && self.spec_records()[k].live;
                    assert(k < recs.len());
                    assert(recs[k].ptr == a && recs[k].live);
                }
            }
        }
        Ok(Pointer::new(ptr))
    }

    /// Free the block at `ptr`.
    ///
    /// Fails with `InvalidPointer` on a null pointer or one that no block
    /// was ever handed out at, and with `DoubleFree` on a block already
    /// freed; either failure changes nothing. On success exactly that
    /// block stops being live and joins its size class's free list; every
    /// other block keeps its address, size and state.
    pub fn deallocate(&mut self, ptr: Pointer<u8>) -> (r: Result<(), AllocError>)
        requires
            old(self).wf(),
        ensures
            final(self).wf(),
            final(self).spec_base() == old(self).spec_base(),
            final(self).spec_bump() == old(self).spec_bump(),
            final(self).spec_records().len() == old(self).spec_records().len(),
            r is Ok <==> old(self).spec_is_live(ptr.addr()),
            r is Ok ==> !final(self).spec_is_live(ptr.addr()),
            forall|a: u32|
                a != ptr.addr() ==> final(self).spec_is_live(a) == old(self).spec_is_live(a),
            forall|k: int|
                0 <= k < old(self).spec_records().len() ==> {
                    &&& (#[trigger] final(self).spec_records()[k]).ptr
                        == old(self).spec_records()[k].ptr
                    &&& final(self).spec_records()[k].size == old(self).spec_records()[k].size
                    &&& (old(self).spec_records()[k].ptr != ptr.addr()
                        ==> final(self).spec_records()[k].live == old(self).spec_records()[k].live)
                },
            r is Err ==> final(self).spec_records() == old(self).spec_records(),
            r is Err ==> r->Err_0 == if ptr.addr() != 0 && spec_contains_ptr(
                old(self).spec_records(),
                ptr.addr(),
            ) {
                AllocError::DoubleFree
            } else {
                AllocError::InvalidPointer
            },
    {
        let a = ptr.raw();
        if a == 0 {
            proof {
                assert forall|k: int| 0 <= k < old(self).spec_records().len() implies (
                #[trigger] old(self).spec_records()[k]).ptr != 0u32 by {
                    assert(old(self).spec_records()[k].ptr >= old(self).spec_base() >= 8);
                }
            }
            return Err(AllocError::InvalidPointer);
        }
        let n = self.records.len();
        let mut i: usize = 0;
        while i < n
            invariant
                self.wf(),
                self.spec_records() == old(self).spec_records(),
                self.spec_base() == old(self).spec_base(),
                self.spec_bump() == old(self).spec_bump(),
                n == self.spec_records().len(),
                i <= n,
                a == ptr.addr(),
                a != 0,
                forall|k: int| 0 <= k < i ==> (#[trigger] self.spec_records()[k]).ptr != a,
            decreases n - i,
        {
            let rec = self.records[i];
            if rec.ptr == a {
                proof {
                    lemma_ptrs_unique_at(
                        old(self).spec_records(),
                        i as int,
                        old(self).spec_base(),
                        old(self).spec_bump(),
                    );
                }
                if rec.live {
                    self.records[i] = AllocRecord { ptr: rec.ptr, size: rec.size, live: false };
                    proof {
                        let recs = old(self).spec_records();
                        let updated = AllocRecord { ptr: rec.ptr, size: rec.size, live: false };
                        assert(self.spec_records() =~= recs.update(i as int, updated));
                        assert(old(self).spec_is_live(a)) by {
                            assert(recs[i as int].ptr == a && recs[i as int].live);
                        }
                        assert(!self.spec_is_live(a)) by {
                            assert forall|k: int|
                                0 <= k < self.spec_records().len() implies !((
                            #[trigger] self.spec_records()[k]).ptr == a
                                && self.spec_records()[k].live) by {
                                if k != i as int {
                                    assert(recs[k].ptr != a);
                                }
                            }
                        }
                        assert forall|b: u32| b != a implies self.spec_is_live(b) == old(
                            self,
                        ).spec_is_live(b) by {
                            lemma_is_live_update_other(recs, self.spec_records(), i as int, b);
                        }
                    }
                    return Ok(());
                } else {
                    proof {
                        let recs = old(self).spec_records();
                        assert(!old(self).spec_is_live(a)) by {
                            assert forall|k: int| 0 <= k < recs.len() implies !((
                            #[trigger] recs[k]).ptr == a && recs[k].live) by {
                                if k != i as int {
                                    assert(recs[k].ptr != a);
                                }
                            }
                        }
                        assert(spec_contains_ptr(recs, a)) by {
                            assert(recs[i as int].ptr == a);
                        }
                    }
                    return Err(AllocError::DoubleFree);
                }
            }
            i = i + 1;
        }
        proof {
            assert(!old(self).spec_is_live(a));
            assert(!spec_contains_ptr(old(self).spec_records(), a));
        }
        Err(AllocError::InvalidPointer)
    }
}

/// The width of the size class that serves a request of `len` bytes.
fn block_size_for(len: u32) -> (r: u32)
    requires
        len <= MAX_ALLOCATION,
    ensures
        r == spec_block_size(len),
        8 <= r <= MAX_ALLOCATION,
        r >= len,
{
    proof {
        lemma_block_size_bounds(len);
    }
    let mut size: u32 = 8;
    while size < len
        invariant
            8 <= size <= MAX_ALLOCATION,
            len <= MAX_ALLOCATION,
            spec_block_size(len) == spec_block_size_from(size, len),
        decreases MAX_ALLOCATION - size,
    {
        if size > MAX_ALLOCATION / 2 {
            size = MAX_ALLOCATION;
        } else {
            size = size * 2;
        }
    }
    size
}

/// In a well-formed record list, no two blocks share an address, so the
/// record found at an address is the only one there.
proof fn lemma_ptrs_unique_at(recs: Seq<AllocRecord>, i: int, base: u32, bump: u32)
    requires
        0 <= i < recs.len(),
        forall|k: int| 0 <= k < recs.len() ==> 8 <= (#[trigger] recs[k]).size,
        forall|k: int, j: int|
            0 <= k < j < recs.len() ==> spec_disjoint(#[trigger] recs[k], #[trigger] recs[j]),
    ensures
        forall|k: int| 0 <= k < recs.len() && k != i ==> (#[trigger] recs[k]).ptr != recs[i].ptr,
{
    assert forall|k: int| 0 <= k < recs.len() && k != i implies (#[trigger] recs[k]).ptr
        != recs[i].ptr by {
        if k < i {
            assert(spec_disjoint(recs[k], recs[i]));
        } else {
            assert(spec_disjoint(recs[i], recs[k]));
        }
    }
}

/// Liveness of every other address survives an update of record `i` that
/// keeps its address.
proof fn lemma_is_live_update_other(
    before: Seq<AllocRecord>,
    after: Seq<AllocRecord>,
    i: int,
    b: u32,
)
    requires
        0 <= i < before.len(),
        after.len() == before.len(),
        forall|k: int|
            0 <= k < before.len() && k != i ==> #[trigger] after[k] == before[k],
        after[i].ptr == before[i].ptr,
        b != before[i].ptr,
    ensures
        (exists|k: int| 0 <= k < after.len() && (#[trigger] after[k]).ptr == b && after[k].live)
            == (exists|k: int|
            0 <= k < before.len() && (#[trigger] before[k]).ptr == b && before[k].live),
{
    if exists|k: int| 0 <= k < before.len() && (#[trigger] before[k]).ptr == b && before[k].live {
        let k = choose|k: int|
            0 <= k < before.len() && (#[trigger] before[k]).ptr == b && before[k].live;
        assert(after[k].ptr == b && after[k].live);
    }
    if exists|k: int| 0 <= k < after.len() && (#[trigger] after[k]).ptr == b && after[k].live {
        let k = choose|k: int|
            0 <= k < after.len() && (#[trigger] after[k]).ptr == b && after[k].live;
        assert(before[k].ptr == b && before[k].live);
    }
}

/// Law: for every interleaving of allocations and deallocations, no two
/// distinct blocks of a well-formed allocator — the live allocations
/// included — occupy overlapping address ranges.
pub proof fn lemma_live_allocations_disjoint(a: &GuestAllocator, i: int, j: int)
    requires
        a.wf(),
        0 <= i < a.spec_records().len(),
        0 <= j < a.spec_records().len(),
        i != j,
    ensures
        spec_disjoint(a.spec_records()[i], a.spec_records()[j]),
{
    if i < j {
        assert(spec_disjoint(a.spec_records()[i], a.spec_records()[j]));
    } else {
        assert(spec_disjoint(a.spec_records()[j], a.spec_records()[i]));
    }
}

} // verus!
