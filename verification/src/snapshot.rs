//! The state snapshot: captured once per loaded module, immediately after
//! instantiation and before any start-up code could run, and reapplied
//! before every call so that every call observes byte-identical starting
//! state without re-instantiating the module.

use vstd::prelude::*;
use crate::memory::{spec_write_bytes, spec_zero_pages};
use crate::module_info::{GlobalInfo, InstanceState, ModuleInfo, SegmentOffset};
use crate::values::Value;

verus! {

/// A fatal snapshot failure: the snapshot was applied to an instance
/// structurally different from the one it was taken of. Unreachable in
/// normal operation.
#[derive(Copy, Clone, PartialEq, Eq, Structural, Debug)]
pub enum SnapshotError {
    /// The instance does not match the snapshot.
    ApplySnapshotFailed,
}

/// A state snapshot of an instance taken just after instantiation: the
/// resolved data segments, the values of all mutable globals in
/// declaration order, and the instance's page counts.
pub struct StateSnapshot {
    /// The resolved (offset, contents) of every active data segment, in
    /// declaration order.
    pub data_segments: Vec<(u32, Vec<u8>)>,
    /// The values of all mutable globals, in declaration order.
    pub global_mut_values: Vec<Value>,
    /// The heap page count the instance was configured with.
    pub heap_pages: u64,
    /// The instance's total memory size at capture, in pages.
    pub memory_pages: u32,
}

/// The resolved load offset of a segment: `None` when it cannot be
/// resolved; `Some(None)` for a passive segment, which is discarded;
/// `Some(Some(o))` for an active segment loaded at `o`.
pub open spec fn spec_resolve_offset(off: SegmentOffset, globals: Seq<GlobalInfo>) -> Option<
    Option<u32>,
> {
    match off {
        SegmentOffset::Constant(o) => Some(Some(o)),
        SegmentOffset::GlobalRef(idx) => if idx < globals.len() && globals[idx as int].value is I32 {
            Some(Some(globals[idx as int].value->I32_0 as u32))
        } else {
            None
        },
        SegmentOffset::Passive => Some(None),
    }
}

/// The captured segment list: every active segment with its resolved
/// offset and bytes, passive segments discarded.
pub open spec fn spec_take_segments(
    segs: Seq<crate::module_info::SegmentInfo>,
    globals: Seq<GlobalInfo>,
) -> Seq<(u32, Seq<u8>)>
    decreases segs.len(),
{
    if segs.len() == 0 {
        Seq::<(u32, Seq<u8>)>::empty()
    } else {
        match spec_resolve_offset(segs[0].offset, globals) {
            Some(Some(o)) => seq![(o, segs[0].data@)] + spec_take_segments(
                segs.drop_first(),
                globals,
            ),
            _ => spec_take_segments(segs.drop_first(), globals),
        }
    }
}

/// The values of the mutable globals, in declaration order.
pub open spec fn spec_mut_values(gs: Seq<GlobalInfo>) -> Seq<Value>
    decreases gs.len(),
{
    if gs.len() == 0 {
        Seq::<Value>::empty()
    } else if gs[0].mutable {
        seq![gs[0].value] + spec_mut_values(gs.drop_first())
    } else {
        spec_mut_values(gs.drop_first())
    }
}

/// How many of the first `i` globals are mutable.
pub open spec fn spec_mut_count(gs: Seq<GlobalInfo>, i: int) -> int
    decreases i,
{
    if i <= 0 {
        0
    } else {
        spec_mut_count(gs, i - 1) + if gs[i - 1].mutable {
            1int
        } else {
            0int
        }
    }
}

/// The memory contents the snapshot restores: zeroed pages with every
/// recorded segment written at its recorded offset, in order. A function
/// of the snapshot alone.
pub open spec fn spec_apply_segments(mem: Seq<u8>, segs: Seq<(u32, Vec<u8>)>, i: int) -> Seq<u8>
    decreases segs.len() - i,
{
    if i < 0 || i >= segs.len() {
        mem
    } else {
        spec_apply_segments(spec_write_bytes(mem, segs[i].0 as int, segs[i].1@), segs, i + 1)
    }
}

/// The snapshot's restored memory image.
pub open spec fn spec_restored_memory(snap: &StateSnapshot) -> Seq<u8> {
    spec_apply_segments(
        spec_zero_pages(snap.memory_pages as int),
        snap.data_segments@,
        0,
    )
}

/// The globals the snapshot restores over the skeleton `gs`: every
/// mutable global takes its recorded value, in declaration order; every
/// immutable global keeps its value.
pub open spec fn spec_restored_globals(gs: Seq<GlobalInfo>, vals: Seq<Value>) -> Seq<GlobalInfo> {
    Seq::new(
        gs.len(),
        |i: int|
            GlobalInfo {
                mutable: gs[i].mutable,
                value: if gs[i].mutable {
                    vals[spec_mut_count(gs, i)]
                } else {
                    gs[i].value
                },
            },
    )
}

/// Every recorded segment lies within the restored memory size.
pub open spec fn spec_segments_in_bounds(segs: Seq<(u32, Vec<u8>)>, mem_len: int) -> bool {
    forall|i: int| 0 <= i < segs.len() ==> (#[trigger] segs[i]).0 + segs[i].1@.len() <= mem_len
}

/// The mutable-global count never shrinks as the prefix grows.
proof fn lemma_mut_count_mono(gs: Seq<GlobalInfo>, a: int, b: int)
    requires
        a <= b,
    ensures
        spec_mut_count(gs, a) <= spec_mut_count(gs, b),
    decreases b - a,
{
    if a < b {
        lemma_mut_count_mono(gs, a, b - 1);
    }
}

/// The count of mutables in a prefix matches the recursive value list.
pub proof fn lemma_mut_values_len(gs: Seq<GlobalInfo>)
    ensures
        spec_mut_values(gs).len() == spec_mut_count(gs, gs.len() as int),
    decreases gs.len(),
{
    if gs.len() > 0 {
        lemma_mut_values_len(gs.drop_first());
        lemma_mut_count_shift(gs, gs.len() as int);
    }
}

/// Counting mutables commutes with dropping the first global.
proof fn lemma_mut_count_shift(gs: Seq<GlobalInfo>, i: int)
    requires
        1 <= i <= gs.len(),
    ensures
        spec_mut_count(gs, i) == (if gs[0].mutable {
            1int
        } else {
            0int
        }) + spec_mut_count(gs.drop_first(), i - 1),
    decreases i,
{
    if i == 1 {
        assert(spec_mut_count(gs, 1) == spec_mut_count(gs, 0) + if gs[0].mutable {
            1int
        } else {
            0int
        });
        assert(spec_mut_count(gs.drop_first(), 0) == 0);
    } else {
        lemma_mut_count_shift(gs, i - 1);
        assert(gs.drop_first()[i - 2] == gs[i - 1]);
        assert(spec_mut_count(gs, i) == spec_mut_count(gs, i - 1) + if gs[i - 1].mutable {
            1int
        } else {
            0int
        });
        assert(spec_mut_count(gs.drop_first(), i - 1) == spec_mut_count(gs.drop_first(), i - 2)
            + if gs.drop_first()[i - 2].mutable {
            1int
        } else {
            0int
        });
    }
}

/// The value the recursive mutable-value list holds at a mutable global's
/// rank is that global's value.
proof fn lemma_mut_values_at(gs: Seq<GlobalInfo>, i: int)
    requires
        0 <= i < gs.len(),
        gs[i].mutable,
    ensures
        0 <= spec_mut_count(gs, i) < spec_mut_values(gs).len(),
        spec_mut_values(gs)[spec_mut_count(gs, i)] == gs[i].value,
    decreases i,
{
    lemma_mut_values_len(gs);
    lemma_mut_count_mono(gs, 0, i);
    assert(spec_mut_count(gs, i + 1) == spec_mut_count(gs, i) + 1);
    lemma_mut_count_mono(gs, i + 1, gs.len() as int);
    if i == 0 {
    } else {
        lemma_mut_values_at(gs.drop_first(), i - 1);
        lemma_mut_count_shift(gs, i);
        assert(gs.drop_first()[i - 1] == gs[i]);
    }
}

impl StateSnapshot {
    /// Capture a snapshot of a freshly instantiated module: resolve every
    /// active data segment's offset — a constant, or the current value of
    /// the referenced global — discard passive segments, and record the
    /// values of all mutable globals in declaration order.
    ///
    /// Returns `None` exactly when some segment references a global that
    /// does not exist or is not 32-bit.
    pub fn take(module: &ModuleInfo, state: &InstanceState, heap_pages: u64) -> (r: Option<
        StateSnapshot,
    >)
        ensures
            r is Some <==> forall|i: int|
                0 <= i < module.segments@.len() ==> spec_resolve_offset(
                    (#[trigger] module.segments@[i]).offset,
                    state.globals@,
                ) is Some,
            r is Some ==> {
                &&& r->Some_0.data_segments@.map_values(|p: (u32, Vec<u8>)| (p.0, p.1@))
                    == spec_take_segments(module.segments@, state.globals@)
                &&& r->Some_0.global_mut_values@ == spec_mut_values(state.globals@)
                &&& r->Some_0.heap_pages == heap_pages
                &&& r->Some_0.memory_pages == state.memory.spec_pages()
            },
    {
        let n = module.segments.len();
        let mut data_segments: Vec<(u32, Vec<u8>)> = Vec::new();
        let mut i: usize = 0;
        while i < n
            invariant
                n == module.segments@.len(),
                i <= n,
                forall|k: int|
                    0 <= k < i ==> spec_resolve_offset(
                        (#[trigger] module.segments@[k]).offset,
                        state.globals@,
                    ) is Some,
                data_segments@.map_values(|p: (u32, Vec<u8>)| (p.0, p.1@)) == spec_take_segments(
                    module.segments@.subrange(0, i as int),
                    state.globals@,
                ),
            decreases n - i,
        {
            let seg = &module.segments[i];
            let resolved: Option<u32> = match seg.offset {
                SegmentOffset::Constant(o) => Some(o),
                SegmentOffset::GlobalRef(idx) => {
                    if (idx as usize) < state.globals.len() {
                        match state.globals[idx as usize].value {
                            Value::I32(v) => Some(v as u32),
                            _ => {
                                return None;
                            },
                        }
                    } else {
                        return None;
                    }
                },
                SegmentOffset::Passive => {
                    proof {
                        lemma_take_segments_snoc(
                            module.segments@,
                            state.globals@,
                            i as int,
                        );
                    }
                    i = i + 1;
                    continue ;
                },
            };
            let offset = match resolved {
                Some(o) => o,
                None => {
                    return None;
                },
            };
            let ghost before = data_segments@;
            data_segments.push((offset, vstd::slice::slice_to_vec(seg.data.as_slice())));
            proof {
                lemma_take_segments_snoc(module.segments@, state.globals@, i as int);
                let f = |p: (u32, Vec<u8>)| (p.0, p.1@);
                assert(data_segments@.map_values(f) =~= before.map_values(f).push(
                    (offset, module.segments@[i as int].data@),
                ));
            }
            i = i + 1;
        }
        proof {
            assert(module.segments@.subrange(0, n as int) =~= module.segments@);
        }
        // Record the values of all mutable globals, in declaration order.
        let n_globals = state.globals.len();
        let mut global_mut_values: Vec<Value> = Vec::new();
        let mut j: usize = 0;
        while j < n_globals
            invariant
                n_globals == state.globals@.len(),
                j <= n_globals,
                global_mut_values@ == spec_mut_values(state.globals@.subrange(0, j as int)),
            decreases n_globals - j,
        {
            let g = &state.globals[j];
            proof {
                lemma_mut_values_snoc(state.globals@, j as int);
            }
            if g.mutable {
                global_mut_values.push(g.value);
            }
            j = j + 1;
        }
        proof {
            assert(state.globals@.subrange(0, n_globals as int) =~= state.globals@);
        }
        Some(
            StateSnapshot {
                data_segments,
                global_mut_values,
                heap_pages,
                memory_pages: state.memory.current_pages(),
            },
        )
    }

    /// Reapply the snapshot to the instance: erase the entire linear
    /// memory back to the captured page count, rewrite each recorded
    /// segment at its recorded offset, then overwrite each mutable global,
    /// in declaration order, with its recorded value. All or nothing: on
    /// success the instance state is a function of the snapshot and the
    /// instance's immutable structure alone.
    ///
    /// Fails only against a structurally different instance: a memory
    /// whose page limit cannot hold the captured pages, a segment out of
    /// bounds, or a mutable-global count that differs from the capture.
    pub fn apply(&self, state: &mut InstanceState) -> (r: Result<(), SnapshotError>)
        requires
            old(state).memory.wf(),
        ensures
            final(state).memory.wf(),
            final(state).memory.spec_max_pages() == old(state).memory.spec_max_pages(),
            r is Ok <==> {
                &&& self.memory_pages <= old(state).memory.spec_max_pages()
                &&& spec_segments_in_bounds(
                    self.data_segments@,
                    self.memory_pages * crate::memory::PAGE_SIZE,
                )
                &&& self.global_mut_values@.len() == spec_mut_count(
                    old(state).globals@,
                    old(state).globals@.len() as int,
                )
            },
            r is Ok ==> {
                &&& final(state).memory@ == spec_restored_memory(self)
                &&& final(state).memory.spec_pages() == self.memory_pages
                &&& final(state).globals@ == spec_restored_globals(
                    old(state).globals@,
                    self.global_mut_values@,
                )
            },
            r is Err ==> r->Err_0 == SnapshotError::ApplySnapshotFailed,
    {
        // The mutable-global count must match the capture.
        let n_globals = state.globals.len();
        let mut count: usize = 0;
        let mut j: usize = 0;
        while j < n_globals
            invariant
                state == old(state),
                n_globals == state.globals@.len(),
                j <= n_globals,
                count == spec_mut_count(state.globals@, j as int),
                count <= j,
            decreases n_globals - j,
        {
            if state.globals[j].mutable {
                count = count + 1;
            }
            j = j + 1;
        }
        if count != self.global_mut_values.len() {
            return Err(SnapshotError::ApplySnapshotFailed);
        }
        // Erase the memory back to the captured page count.
        match state.memory.reset(self.memory_pages) {
            Ok(()) => {},
            Err(_) => {
                return Err(SnapshotError::ApplySnapshotFailed);
            },
        }
        proof {
            crate::memory::lemma_page_bytes_bound(self.memory_pages);
        }
        // Rewrite each recorded segment at its recorded offset.
        let n_segments = self.data_segments.len();
        let mut i: usize = 0;
        while i < n_segments
            invariant
                n_segments == self.data_segments@.len(),
                i <= n_segments,
                state.globals@ == old(state).globals@,
                state.memory.wf(),
                state.memory.spec_pages() == self.memory_pages,
                state.memory.spec_max_pages() == old(state).memory.spec_max_pages(),
                state.memory@.len() == self.memory_pages * crate::memory::PAGE_SIZE,
                spec_apply_segments(state.memory@, self.data_segments@, i as int)
                    == spec_restored_memory(self),
                forall|k: int|
                    0 <= k < i ==> (#[trigger] self.data_segments@[k]).0
                        + self.data_segments@[k].1@.len() <= state.memory@.len(),
            decreases n_segments - i,
        {
            let seg_ptr = self.data_segments[i].0;
            let write_result = state.memory.write(seg_ptr, self.data_segments[i].1.as_slice());
            match write_result {
                Ok(()) => {},
                Err(_) => {
                    return Err(SnapshotError::ApplySnapshotFailed);
                },
            }
            i = i + 1;
        }
        // Overwrite each mutable global, in order, with its recorded value.
        let ghost gs_old = state.globals@;
        let mut k: usize = 0;
        let mut j: usize = 0;
        while j < n_globals
            invariant
                n_globals == state.globals@.len() == gs_old.len(),
                gs_old == old(state).globals@,
                j <= n_globals,
                k <= j,
                k == spec_mut_count(gs_old, j as int),
                spec_mut_count(gs_old, gs_old.len() as int) == self.global_mut_values@.len(),
                state.memory.wf(),
                state.memory.spec_pages() == self.memory_pages,
                state.memory.spec_max_pages() == old(state).memory.spec_max_pages(),
                state.memory@ == spec_restored_memory(self),
                forall|m: int| j <= m < n_globals ==> state.globals@[m] == gs_old[m],
                forall|m: int|
                    0 <= m < j ==> state.globals@[m] == spec_restored_globals(
                        gs_old,
                        self.global_mut_values@,
                    )[m],
            decreases n_globals - j,
        {
            proof {
                lemma_mut_count_mono(gs_old, j + 1, gs_old.len() as int);
            }
            if state.globals[j].mutable {
                let value = self.global_mut_values[k];
                state.globals[j] = GlobalInfo { mutable: true, value };
                k = k + 1;
            }
            j = j + 1;
        }
        proof {
            assert(state.globals@ =~= spec_restored_globals(gs_old, self.global_mut_values@));
        }
        Ok(())
    }
}

/// The captured-segment list of one more segment extends by that segment's
/// resolution.
proof fn lemma_take_segments_snoc(
    segs: Seq<crate::module_info::SegmentInfo>,
    globals: Seq<GlobalInfo>,
    i: int,
)
    requires
        0 <= i < segs.len(),
    ensures
        spec_take_segments(segs.subrange(0, i + 1), globals) == match spec_resolve_offset(
            segs[i].offset,
            globals,
        ) {
            Some(Some(o)) => spec_take_segments(segs.subrange(0, i), globals).push(
                (o, segs[i].data@),
            ),
            _ => spec_take_segments(segs.subrange(0, i), globals),
        },
{
    lemma_take_segments_append_one(segs.subrange(0, i), segs[i], globals);
    assert(segs.subrange(0, i).push(segs[i]) =~= segs.subrange(0, i + 1));
}

/// Appending one segment to a prefix appends (or not) its resolution.
proof fn lemma_take_segments_append_one(
    prefix: Seq<crate::module_info::SegmentInfo>,
    seg: crate::module_info::SegmentInfo,
    globals: Seq<GlobalInfo>,
)
    ensures
        spec_take_segments(prefix.push(seg), globals) == match spec_resolve_offset(
            seg.offset,
            globals,
        ) {
            Some(Some(o)) => spec_take_segments(prefix, globals).push((o, seg.data@)),
            _ => spec_take_segments(prefix, globals),
        },
    decreases prefix.len(),
{
    if prefix.len() == 0 {
        reveal_with_fuel(spec_take_segments, 2);
        assert(prefix.push(seg)[0] == seg);
        assert(prefix.push(seg).drop_first() =~= Seq::<crate::module_info::SegmentInfo>::empty());
        match spec_resolve_offset(seg.offset, globals) {
            Some(Some(o)) => {
                assert(seq![(o, seg.data@)] + Seq::<(u32, Seq<u8>)>::empty() =~= Seq::<
                    (u32, Seq<u8>),
                >::empty().push((o, seg.data@)));
            },
            _ => {},
        }
    } else {
        assert(prefix.push(seg)[0] == prefix[0]);
        assert(prefix.push(seg).drop_first() =~= prefix.drop_first().push(seg));
        lemma_take_segments_append_one(prefix.drop_first(), seg, globals);
        match spec_resolve_offset(prefix[0].offset, globals) {
            Some(Some(o0)) => {
                match spec_resolve_offset(seg.offset, globals) {
                    Some(Some(o)) => {
                        assert(seq![(o0, prefix[0].data@)] + spec_take_segments(
                            prefix.drop_first(),
                            globals,
                        ).push((o, seg.data@)) =~= (seq![(o0, prefix[0].data@)]
                            + spec_take_segments(prefix.drop_first(), globals)).push(
                            (o, seg.data@),
                        ));
                    },
                    _ => {},
                }
            },
            _ => {},
        }
    }
}

/// The recorded mutable-value list of one more global extends by its value
/// exactly when it is mutable.
proof fn lemma_mut_values_snoc(gs: Seq<GlobalInfo>, i: int)
    requires
        0 <= i < gs.len(),
    ensures
        spec_mut_values(gs.subrange(0, i + 1)) == if gs[i].mutable {
            spec_mut_values(gs.subrange(0, i)).push(gs[i].value)
        } else {
            spec_mut_values(gs.subrange(0, i))
        },
{
    lemma_mut_values_append_one(gs.subrange(0, i), gs[i]);
    assert(gs.subrange(0, i).push(gs[i]) =~= gs.subrange(0, i + 1));
}

/// Appending one global to a prefix appends (or not) its value.
proof fn lemma_mut_values_append_one(prefix: Seq<GlobalInfo>, g: GlobalInfo)
    ensures
        spec_mut_values(prefix.push(g)) == if g.mutable {
            spec_mut_values(prefix).push(g.value)
        } else {
            spec_mut_values(prefix)
        },
    decreases prefix.len(),
{
    if prefix.len() == 0 {
        reveal_with_fuel(spec_mut_values, 2);
        assert(prefix.push(g)[0] == g);
        assert(prefix.push(g).drop_first() =~= Seq::<GlobalInfo>::empty());
        if g.mutable {
            assert(seq![g.value] + Seq::<Value>::empty() =~= Seq::<Value>::empty().push(g.value));
        }
    } else {
        assert(prefix.push(g)[0] == prefix[0]);
        assert(prefix.push(g).drop_first() =~= prefix.drop_first().push(g));
        lemma_mut_values_append_one(prefix.drop_first(), g);
        if prefix[0].mutable && g.mutable {
            assert(seq![prefix[0].value] + spec_mut_values(prefix.drop_first()).push(g.value)
                =~= (seq![prefix[0].value] + spec_mut_values(prefix.drop_first())).push(g.value));
        }
    }
}

/// Law: call isolation. The state a snapshot restores is a function of the
/// snapshot and the instance's immutable structure alone, so the state
/// visible at the start of every call equals the state captured
/// immediately after instantiation. For the memory half this holds by
/// construction: `spec_restored_memory` takes only the snapshot, so
/// nothing a prior call wrote can reach it. For the globals half, any two
/// prior states that share the instance's immutable structure — the
/// count, order and mutability of the globals, and the immutable ones'
/// values — restore to identical globals, whatever the mutable values
/// were left at.
pub proof fn lemma_call_isolation(
    snap: &StateSnapshot,
    gs1: Seq<GlobalInfo>,
    gs2: Seq<GlobalInfo>,
)
    requires
        gs1.len() == gs2.len(),
        forall|i: int| 0 <= i < gs1.len() ==> (#[trigger] gs1[i]).mutable == gs2[i].mutable,
        forall|i: int|
            0 <= i < gs1.len() && !(#[trigger] gs1[i]).mutable ==> gs1[i].value == gs2[i].value,
    ensures
        spec_restored_globals(gs1, snap.global_mut_values@) == spec_restored_globals(
            gs2,
            snap.global_mut_values@,
        ),
{
    assert forall|i: int| 0 <= i <= gs1.len() implies spec_mut_count(gs1, i) == spec_mut_count(
        gs2,
        i,
    ) by {
        lemma_mut_count_equal(gs1, gs2, i);
    }
    assert(spec_restored_globals(gs1, snap.global_mut_values@) =~= spec_restored_globals(
        gs2,
        snap.global_mut_values@,
    ));
}

/// Law: restoring a snapshot right after capturing it reproduces the
/// captured globals exactly — capture followed by restore is the identity
/// on the instance's globals.
pub proof fn lemma_capture_restore_globals_identity(gs: Seq<GlobalInfo>)
    ensures
        spec_restored_globals(gs, spec_mut_values(gs)) == gs,
{
    assert forall|i: int| 0 <= i < gs.len() implies spec_restored_globals(
        gs,
        spec_mut_values(gs),
    )[i] == gs[i] by {
        if gs[i].mutable {
            lemma_mut_values_at(gs, i);
        }
    }
    assert(spec_restored_globals(gs, spec_mut_values(gs)) =~= gs);
}

/// Equal mutability skeletons count mutables alike.
pub proof fn lemma_mut_count_equal(gs1: Seq<GlobalInfo>, gs2: Seq<GlobalInfo>, i: int)
    requires
        gs1.len() == gs2.len(),
        i <= gs1.len(),
        forall|k: int| 0 <= k < gs1.len() ==> (#[trigger] gs1[k]).mutable == gs2[k].mutable,
    ensures
        spec_mut_count(gs1, i) == spec_mut_count(gs2, i),
    decreases i,
{
    if i > 0 {
        lemma_mut_count_equal(gs1, gs2, i - 1);
    }
}

} // verus!
