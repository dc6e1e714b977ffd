//! The staged capability state and the update batch engine: an in-process
//! working copy of the four capability sets, mutated by clear/fill/update
//! operations and classified by the have-capabilities queries, plus the
//! snapshot type that captures and restores it verbatim. Nothing here is
//! visible to the kernel until a surrounding layer commits the masks.

use vstd::prelude::*;

use crate::caps::{spec_cap_valid, spec_resolve, CAP_LAST_CAP};
use crate::error::Error;
use crate::flags::{Action, CUpdate, Capability, HaveCapsResult, Pid, Scope, Type};

verus! {

/// All valid capability bits: ids `0 ..= CAP_LAST_CAP`, one bit each.
pub const CAP_MASK_ALL: u64 = 0x1ff_ffff_ffff;

/// The single bit standing for capability `c`.
pub open spec fn spec_cap_bit(c: u32) -> u64 {
    1u64 << (c as u64)
}

/// Whether mask `m` holds the bit of capability `c`.
pub open spec fn spec_has_cap(m: u64, c: u32) -> bool {
    m & spec_cap_bit(c) != 0
}

/// The in-memory working copy of the capability state: one bit per
/// capability id in each of the four kind masks, plus the process id that
/// kernel-facing reads target (0 for the calling process).
#[derive(Clone, Copy, PartialEq, Eq, Structural, Debug)]
pub struct StagedState {
    pub effective: u64,
    pub permitted: u64,
    pub inheritable: u64,
    pub bounding: u64,
    pub pid: Pid,
}

impl StagedState {
    /// Well-formed: every mask holds bits of valid capability ids only.
    pub open spec fn wf(self) -> bool {
        &&& self.effective & CAP_MASK_ALL == self.effective
        &&& self.permitted & CAP_MASK_ALL == self.permitted
        &&& self.inheritable & CAP_MASK_ALL == self.inheritable
        &&& self.bounding & CAP_MASK_ALL == self.bounding
    }

    /// An empty staged state targeting the calling process.
    pub fn new() -> (s: StagedState)
        ensures
            s == (StagedState { effective: 0, permitted: 0, inheritable: 0, bounding: 0, pid: 0 }),
            s.wf(),
    {
        proof {
            assert(0u64 & 0x1ff_ffff_ffffu64 == 0u64) by (bit_vector);
        }
        StagedState { effective: 0, permitted: 0, inheritable: 0, bounding: 0, pid: 0 }
    }
}

/// The staged state after zeroing every capability bit in `scope`.
pub open spec fn spec_clear(s: StagedState, scope: Scope) -> StagedState {
    StagedState {
        effective: if scope.sel_caps() { 0 } else { s.effective },
        permitted: if scope.sel_caps() { 0 } else { s.permitted },
        inheritable: if scope.sel_caps() { 0 } else { s.inheritable },
        bounding: if scope.sel_bounds() { 0 } else { s.bounding },
        pid: s.pid,
    }
}

/// The staged state after setting every valid capability bit in `scope`.
pub open spec fn spec_fill(s: StagedState, scope: Scope) -> StagedState {
    StagedState {
        effective: if scope.sel_caps() { CAP_MASK_ALL } else { s.effective },
        permitted: if scope.sel_caps() { CAP_MASK_ALL } else { s.permitted },
        inheritable: if scope.sel_caps() { CAP_MASK_ALL } else { s.inheritable },
        bounding: if scope.sel_bounds() { CAP_MASK_ALL } else { s.bounding },
        pid: s.pid,
    }
}

/// Zero all capability bits in the given scope of the staged state. No
/// failure mode.
pub fn clear(state: &mut StagedState, set: Scope)
    ensures
        *final(state) == spec_clear(*old(state), set),
{
    if set.bits & 16 != 0 {
        state.effective = 0;
        state.permitted = 0;
        state.inheritable = 0;
    }
    if set.bits & 32 != 0 {
        state.bounding = 0;
    }
}

/// Set all capability bits in the given scope of the staged state. No
/// failure mode.
pub fn fill(state: &mut StagedState, set: Scope)
    ensures
        *final(state) == spec_fill(*old(state), set),
{
    if set.bits & 16 != 0 {
        state.effective = CAP_MASK_ALL;
        state.permitted = CAP_MASK_ALL;
        state.inheritable = CAP_MASK_ALL;
    }
    if set.bits & 32 != 0 {
        state.bounding = CAP_MASK_ALL;
    }
}

/// Redirect subsequent process-scoped kernel reads to the given process id
/// (used for inspecting, not mutating, another process's published state).
pub fn setpid(state: &mut StagedState, pid: Pid)
    ensures
        *final(state) == (StagedState { pid, ..*old(state) }),
{
    state.pid = pid;
}

/// Replace the three process capability masks by the raw masks a kernel
/// read handed back, keeping only valid capability bits. The bounding mask
/// and the target pid are untouched.
pub fn load_process_sets(state: &mut StagedState, effective: u64, permitted: u64, inheritable: u64)
    ensures
        *final(state) == (StagedState {
            effective: effective & CAP_MASK_ALL,
            permitted: permitted & CAP_MASK_ALL,
            inheritable: inheritable & CAP_MASK_ALL,
            ..*old(state)
        }),
{
    state.effective = effective & CAP_MASK_ALL;
    state.permitted = permitted & CAP_MASK_ALL;
    state.inheritable = inheritable & CAP_MASK_ALL;
}

/// The mask after adding or dropping the bit of capability `c`.
pub open spec fn spec_apply_bit(m: u64, a: Action, c: u32) -> u64 {
    match a {
        Action::ADD => m | spec_cap_bit(c),
        Action::DROP => m & !spec_cap_bit(c),
    }
}

/// The staged state after one update: for every kind selected by the
/// update's `cap_type`, the capability's bit is added or dropped; an update
/// naming an invalid capability changes nothing.
pub open spec fn spec_update_one(s: StagedState, u: CUpdate) -> StagedState {
    if !spec_cap_valid(u.capability) {
        s
    } else {
        StagedState {
            effective: if u.cap_type.bits & 1 != 0 {
                spec_apply_bit(s.effective, u.action, u.capability)
            } else {
                s.effective
            },
            permitted: if u.cap_type.bits & 2 != 0 {
                spec_apply_bit(s.permitted, u.action, u.capability)
            } else {
                s.permitted
            },
            inheritable: if u.cap_type.bits & 4 != 0 {
                spec_apply_bit(s.inheritable, u.action, u.capability)
            } else {
                s.inheritable
            },
            bounding: if u.cap_type.bits & 8 != 0 {
                spec_apply_bit(s.bounding, u.action, u.capability)
            } else {
                s.bounding
            },
            pid: s.pid,
        }
    }
}

/// The staged state after a batch of updates, applied strictly in order.
pub open spec fn spec_update_seq(s: StagedState, us: Seq<CUpdate>) -> StagedState
    decreases us.len(),
{
    if us.len() == 0 {
        s
    } else {
        spec_update_seq(spec_update_one(s, us[0]), us.skip(1))
    }
}

/// How many leading updates of the batch name a valid capability.
pub open spec fn spec_valid_prefix(us: Seq<CUpdate>) -> int
    decreases us.len(),
{
    if us.len() == 0 {
        0
    } else if !spec_cap_valid(us[0].capability) {
        0
    } else {
        1 + spec_valid_prefix(us.skip(1))
    }
}

/// Appending one update to a batch applies it after the batch.
pub proof fn lemma_update_seq_push(s: StagedState, us: Seq<CUpdate>, u: CUpdate)
    ensures
        spec_update_seq(s, us.push(u)) == spec_update_one(spec_update_seq(s, us), u),
    decreases us.len(),
{
    reveal_with_fuel(spec_update_seq, 3);
    assert(us.push(u)[0] == if us.len() == 0 { u } else { us[0] });
    if us.len() == 0 {
        assert(us.push(u).skip(1) =~= Seq::<CUpdate>::empty());
    } else {
        assert(us.push(u).skip(1) =~= us.skip(1).push(u));
        lemma_update_seq_push(spec_update_one(s, us[0]), us.skip(1), u);
    }
}

proof fn lemma_valid_prefix_at(us: Seq<CUpdate>, i: int)
    requires
        0 <= i <= us.len(),
        forall|j: int| 0 <= j < i ==> spec_cap_valid(us[j].capability),
        i < us.len() ==> !spec_cap_valid(us[i].capability),
    ensures
        spec_valid_prefix(us) == i,
    decreases us.len(),
{
    if us.len() == 0 {
    } else if i == 0 {
    } else {
        assert(forall|j: int| 0 <= j < i - 1 ==> us.skip(1)[j] == us[j + 1]);
        lemma_valid_prefix_at(us.skip(1), i - 1);
    }
}

proof fn lemma_wf_bit(m: u64, i: u64)
    requires
        i <= 40,
    ensures
        m & 0x1ff_ffff_ffff == m ==> (m | (1u64 << i)) & 0x1ff_ffff_ffff == (m | (1u64 << i)),
        m & 0x1ff_ffff_ffff == m ==> (m & !(1u64 << i)) & 0x1ff_ffff_ffff == (m & !(1u64 << i)),
{
    assert(m & 0x1ff_ffff_ffff == m ==> (m | (1u64 << i)) & 0x1ff_ffff_ffff == (m | (1u64 << i)))
        by (bit_vector)
        requires
            i <= 40,
    ;
    assert(m & 0x1ff_ffff_ffff == m ==> (m & !(1u64 << i)) & 0x1ff_ffff_ffff == (m & !(1u64
        << i))) by (bit_vector)
        requires
            i <= 40,
    ;
}

fn apply_bit(m: u64, a: Action, c: u32) -> (r: u64)
    requires
        spec_cap_valid(c),
    ensures
        r == spec_apply_bit(m, a, c),
        m & CAP_MASK_ALL == m ==> r & CAP_MASK_ALL == r,
{
    proof {
        lemma_wf_bit(m, c as u64);
    }
    match a {
        Action::ADD => m | (1u64 << (c as u64)),
        Action::DROP => m & !(1u64 << (c as u64)),
    }
}

fn update_one(state: &mut StagedState, u: CUpdate)
    requires
        spec_cap_valid(u.capability),
    ensures
        *final(state) == spec_update_one(*old(state), u),
        old(state).wf() ==> final(state).wf(),
{
    if u.cap_type.bits & 1 != 0 {
        state.effective = apply_bit(state.effective, u.action, u.capability);
    }
    if u.cap_type.bits & 2 != 0 {
        state.permitted = apply_bit(state.permitted, u.action, u.capability);
    }
    if u.cap_type.bits & 4 != 0 {
        state.inheritable = apply_bit(state.inheritable, u.action, u.capability);
    }
    if u.cap_type.bits & 8 != 0 {
        state.bounding = apply_bit(state.bounding, u.action, u.capability);
    }
}

/// Apply a batch of updates to the staged state, strictly in order and
/// fail-fast: the first update naming an invalid capability stops the batch
/// and is reported as `UpdateCapability` carrying that capability, with the
/// already-applied prefix left in effect (no rollback).
pub fn update(state: &mut StagedState, updates: Vec<CUpdate>) -> (r: Result<(), Error>)
    ensures
        *final(state) == spec_update_seq(
            *old(state),
            updates@.take(spec_valid_prefix(updates@)),
        ),
        (spec_valid_prefix(updates@) == updates@.len() ==> r is Ok),
        (spec_valid_prefix(updates@) < updates@.len() ==> (r matches Err(e) && e
            == Error::UpdateCapability(updates@[spec_valid_prefix(updates@)].capability))),
        old(state).wf() ==> final(state).wf(),
{
    let n = updates.len();
    let mut i: usize = 0;
    while i < n
        invariant
            n == updates@.len(),
            i <= n,
            forall|j: int| 0 <= j < i ==> spec_cap_valid(updates@[j].capability),
            *state == spec_update_seq(*old(state), updates@.take(i as int)),
            old(state).wf() ==> state.wf(),
        decreases n - i,
    {
        let u = updates[i];
        if u.capability > CAP_LAST_CAP {
            proof {
                lemma_valid_prefix_at(updates@, i as int);
            }
            return Err(Error::UpdateCapability(u.capability));
        }
        update_one(state, u);
        proof {
            lemma_update_seq_push(*old(state), updates@.take(i as int), u);
            assert(updates@.take(i as int).push(u) =~= updates@.take(i as int + 1));
        }
        i = i + 1;
    }
    proof {
        lemma_valid_prefix_at(updates@, n as int);
        assert(updates@.take(n as int) =~= updates@);
    }
    Ok(())
}

/// The character sequences of a sequence of string slices.
pub open spec fn spec_views(names: Seq<&str>) -> Seq<Seq<char>> {
    names.map_values(|n: &str| n@)
}

/// How many leading names of the batch resolve to a capability.
pub open spec fn spec_resolved_prefix(names: Seq<Seq<char>>) -> int
    decreases names.len(),
{
    if names.len() == 0 {
        0
    } else if spec_resolve(names[0]) is None {
        0
    } else {
        1 + spec_resolved_prefix(names.skip(1))
    }
}

/// The staged state after updating, strictly in order, each capability the
/// names resolve to, stopping at the first name that does not resolve.
pub open spec fn spec_apply_names(
    s: StagedState,
    a: Action,
    t: Type,
    names: Seq<Seq<char>>,
) -> StagedState
    decreases names.len(),
{
    if names.len() == 0 {
        s
    } else {
        match spec_resolve(names[0]) {
            Option::None => s,
            Option::Some(c) => spec_apply_names(
                spec_update_one(s, CUpdate { action: a, cap_type: t, capability: c }),
                a,
                t,
                names.skip(1),
            ),
        }
    }
}

proof fn lemma_apply_names_push(
    s: StagedState,
    a: Action,
    t: Type,
    names: Seq<Seq<char>>,
    x: Seq<char>,
)
    requires
        forall|j: int| 0 <= j < names.len() ==> spec_resolve(names[j]) is Some,
    ensures
        spec_apply_names(s, a, t, names.push(x)) == (match spec_resolve(x) {
            Option::None => spec_apply_names(s, a, t, names),
            Option::Some(c) => spec_update_one(
                spec_apply_names(s, a, t, names),
                CUpdate { action: a, cap_type: t, capability: c },
            ),
        }),
    decreases names.len(),
{
    reveal_with_fuel(spec_apply_names, 3);
    assert(names.push(x)[0] == if names.len() == 0 { x } else { names[0] });
    if names.len() == 0 {
        assert(names.push(x).skip(1) =~= Seq::<Seq<char>>::empty());
    } else {
        assert(names.push(x).skip(1) =~= names.skip(1).push(x));
        assert(forall|j: int| 0 <= j < names.skip(1).len() ==> spec_resolve(
            #[trigger] names.skip(1)[j],
        ) is Some);
        match spec_resolve(names[0]) {
            Option::Some(c0) => {
                lemma_apply_names_push(
                    spec_update_one(s, CUpdate { action: a, cap_type: t, capability: c0 }),
                    a,
                    t,
                    names.skip(1),
                    x,
                );
            },
            Option::None => {
            },
        }
    }
}

proof fn lemma_resolved_prefix_at(names: Seq<Seq<char>>, i: int)
    requires
        0 <= i <= names.len(),
        forall|j: int| 0 <= j < i ==> spec_resolve(names[j]) is Some,
        i < names.len() ==> spec_resolve(names[i]) is None,
    ensures
        spec_resolved_prefix(names) == i,
    decreases names.len(),
{
    if names.len() == 0 {
    } else if i == 0 {
    } else {
        assert(forall|j: int| 0 <= j < i - 1 ==> names.skip(1)[j] == names[j + 1]);
        lemma_resolved_prefix_at(names.skip(1), i - 1);
    }
}

/// Resolve each name in order and apply the resulting update, fail-fast: the
/// first name that resolves to no capability stops the batch and is reported
/// as `GetCapabilityId` carrying that name, with the already-applied prefix
/// left in effect (no rollback).
pub fn updatev(state: &mut StagedState, action: Action, _type: Type, names: Vec<&str>) -> (r:
    Result<(), Error>)
    ensures
        *final(state) == spec_apply_names(
            *old(state),
            action,
            _type,
            spec_views(names@).take(spec_resolved_prefix(spec_views(names@))),
        ),
        (spec_resolved_prefix(spec_views(names@)) == names@.len() ==> r is Ok),
        (spec_resolved_prefix(spec_views(names@)) < names@.len() ==> (r matches Err(e) && e matches
        Error::GetCapabilityId(nm) && nm@ == spec_views(names@)[spec_resolved_prefix(
            spec_views(names@),
        )])),
        old(state).wf() ==> final(state).wf(),
{
    let n = names.len();
    let mut i: usize = 0;
    while i < n
        invariant
            n == names@.len(),
            i <= n,
            forall|j: int| 0 <= j < i ==> spec_resolve(spec_views(names@)[j]) is Some,
            *state == spec_apply_names(
                *old(state),
                action,
                _type,
                spec_views(names@).take(i as int),
            ),
            old(state).wf() ==> state.wf(),
        decreases n - i,
    {
        let name: &str = names[i];
        match crate::caps::name_to_capability(name) {
            Ok(cap) => {
                proof {
                    crate::caps::lemma_name_round_trip(name@);
                }
                update_one(state, CUpdate { action, cap_type: _type, capability: cap });
                proof {
                    lemma_apply_names_push(
                        *old(state),
                        action,
                        _type,
                        spec_views(names@).take(i as int),
                        name@,
                    );
                    assert(spec_views(names@).take(i as int).push(name@) =~= spec_views(
                        names@,
                    ).take(i as int + 1));
                }
                i = i + 1;
            },
            Err(e) => {
                proof {
                    lemma_resolved_prefix_at(spec_views(names@), i as int);
                }
                return Err(e);
            },
        }
    }
    proof {
        lemma_resolved_prefix_at(spec_views(names@), n as int);
        assert(spec_views(names@).take(n as int) =~= spec_views(names@));
    }
    Ok(())
}

/// The classification of one mask against the full set of valid bits.
pub open spec fn spec_classify_mask(m: u64) -> HaveCapsResult {
    if m == 0 {
        HaveCapsResult::NONE
    } else if m == CAP_MASK_ALL {
        HaveCapsResult::FULL
    } else {
        HaveCapsResult::PARTIAL
    }
}

/// Two classifications combined: agreement stands, disagreement is PARTIAL.
pub open spec fn spec_combine(a: HaveCapsResult, b: HaveCapsResult) -> HaveCapsResult {
    if a == b {
        a
    } else {
        HaveCapsResult::PARTIAL
    }
}

/// The classification `have_capabilities` reports: the effective mask stands
/// for the process scope, the bounding mask for the bounding scope; a scope
/// that selects both combines the two, and one that selects neither cannot
/// be compared at all.
pub open spec fn spec_have_caps(s: StagedState, scope: Scope) -> HaveCapsResult {
    if scope.sel_caps() && scope.sel_bounds() {
        spec_combine(spec_classify_mask(s.effective), spec_classify_mask(s.bounding))
    } else if scope.sel_caps() {
        spec_classify_mask(s.effective)
    } else if scope.sel_bounds() {
        spec_classify_mask(s.bounding)
    } else {
        HaveCapsResult::FAIL
    }
}

fn classify_mask(m: u64) -> (r: HaveCapsResult)
    ensures
        r == spec_classify_mask(m),
{
    if m == 0 {
        HaveCapsResult::NONE
    } else if m == CAP_MASK_ALL {
        HaveCapsResult::FULL
    } else {
        HaveCapsResult::PARTIAL
    }
}

/// Classify the staged state of `set` as NONE (no bits set), PARTIAL (some
/// but not all) or FULL (all bits set); FAIL when the scope selects nothing
/// to compare.
pub fn have_capabilities(state: &StagedState, set: Scope) -> (r: Result<HaveCapsResult, Error>)
    ensures
        (r matches Ok(h) && h == spec_have_caps(*state, set)),
{
    let sel_caps = set.bits & 16 != 0;
    let sel_bounds = set.bits & 32 != 0;
    if sel_caps && sel_bounds {
        let a = classify_mask(state.effective);
        let b = classify_mask(state.bounding);
        if a == b {
            Ok(a)
        } else {
            Ok(HaveCapsResult::PARTIAL)
        }
    } else if sel_caps {
        Ok(classify_mask(state.effective))
    } else if sel_bounds {
        Ok(classify_mask(state.bounding))
    } else {
        Ok(HaveCapsResult::FAIL)
    }
}

/// Classify the staged permitted set alone.
pub fn have_permitted_capabilities(state: &StagedState) -> (r: Result<HaveCapsResult, Error>)
    ensures
        (r matches Ok(h) && h == spec_classify_mask(state.permitted)),
{
    Ok(classify_mask(state.permitted))
}

/// Whether `which` names exactly one kind whose staged mask holds the bit of
/// `c`; false for an invalid capability or a combined kind selector.
pub open spec fn spec_have_capability(s: StagedState, which: Type, c: u32) -> bool {
    &&& spec_cap_valid(c)
    &&& if which.bits == 1 {
        spec_has_cap(s.effective, c)
    } else if which.bits == 2 {
        spec_has_cap(s.permitted, c)
    } else if which.bits == 4 {
        spec_has_cap(s.inheritable, c)
    } else if which.bits == 8 {
        spec_has_cap(s.bounding, c)
    } else {
        false
    }
}

/// Test a single capability in a single kind of the staged state.
pub fn have_capability(state: &StagedState, which: Type, capability: Capability) -> (r: bool)
    ensures
        r == spec_have_capability(*state, which, capability),
{
    if capability > CAP_LAST_CAP {
        return false;
    }
    let m: u64 = if which.bits == 1 {
        state.effective
    } else if which.bits == 2 {
        state.permitted
    } else if which.bits == 4 {
        state.inheritable
    } else if which.bits == 8 {
        state.bounding
    } else {
        return false;
    };
    m & (1u64 << (capability as u64)) != 0
}

/// What a snapshot captures of a staged state: the full state itself.
pub open spec fn spec_save(s: StagedState) -> StagedState {
    s
}

/// What restoring a snapshot reinstates: the captured state, verbatim.
pub open spec fn spec_restore(captured: StagedState) -> StagedState {
    captured
}

/// An opaque, self-contained capture of a staged state at a point in time.
/// It owns its data independently and is consumed — moved, hence usable at
/// most once — by `restore_state`.
pub struct CapngState {
    saved: StagedState,
}

impl View for CapngState {
    type V = StagedState;

    closed spec fn view(&self) -> StagedState {
        self.saved
    }
}

/// Capture the current staged state opaquely. Callers must treat a `None`
/// as "restore is a no-op", not as a failure; with an in-memory state there
/// is always something to capture, so the result is always `Some`.
pub fn save_state(state: &StagedState) -> (r: Option<CapngState>)
    ensures
        (r matches Some(snap) && snap@ == spec_save(*state)),
{
    Some(CapngState { saved: *state })
}

/// Consume the snapshot and reinstate the captured state as current. The
/// snapshot handle is moved into this call, so it cannot be restored twice.
pub fn restore_state(state: &mut StagedState, snapshot: CapngState)
    ensures
        *final(state) == spec_restore(snapshot@),
{
    *state = snapshot.saved;
}

/// The valid capability ids below `n` whose bit is clear in `m`, ascending.
pub open spec fn spec_missing_caps(m: u64, n: int) -> Seq<Capability>
    decreases n,
{
    if n <= 0 {
        Seq::empty()
    } else {
        spec_missing_caps(m, n - 1) + (if spec_has_cap(m, (n - 1) as u32) {
            Seq::<Capability>::empty()
        } else {
            seq![(n - 1) as u32]
        })
    }
}

/// The capability ids a commit of the bounding set must drop: every valid
/// id whose bit is clear in the staged bounding mask, in ascending order.
pub fn bounding_to_drop(state: &StagedState) -> (r: Vec<Capability>)
    ensures
        r@ == spec_missing_caps(state.bounding, 41),
{
    let mut r: Vec<Capability> = Vec::new();
    let mut c: u32 = 0;
    while c < 41
        invariant
            c <= 41,
            r@ == spec_missing_caps(state.bounding, c as int),
        decreases 41 - c,
    {
        if state.bounding & (1u64 << (c as u64)) == 0 {
            r.push(c);
            proof {
                assert(r@ =~= spec_missing_caps(state.bounding, c as int + 1));
            }
        } else {
            proof {
                assert(spec_missing_caps(state.bounding, c as int + 1) =~= spec_missing_caps(
                    state.bounding,
                    c as int,
                ));
            }
        }
        c = c + 1;
    }
    r
}

proof fn lemma_bv_mask_order(m: u64, x: u64)
    ensures
        (m | x) & !x == m & !x,
        (m & !x) | x == m | x,
{
    assert((m | x) & !x == m & !x) by (bit_vector);
    assert((m & !x) | x == m | x) by (bit_vector);
}

/// Clear and fill are exact opposites: whatever the prior state, clearing
/// both scopes makes the query of both classify as NONE, and filling both
/// makes it classify as FULL.
pub proof fn lemma_clear_fill_opposites(s: StagedState)
    ensures
        spec_have_caps(spec_clear(s, Scope::BOTH()), Scope::BOTH()) == HaveCapsResult::NONE,
        spec_have_caps(spec_fill(s, Scope::BOTH()), Scope::BOTH()) == HaveCapsResult::FULL,
{
    crate::flags::lemma_scope_selection();
}

/// Batch ordering: within one batch, adding then dropping the same
/// (kind, capability) nets to the plain drop; dropping then adding nets to
/// the plain add.
pub proof fn lemma_batch_order(s: StagedState, t: Type, c: Capability)
    requires
        spec_cap_valid(c),
    ensures
        spec_update_seq(
            s,
            seq![
                (CUpdate { action: Action::ADD, cap_type: t, capability: c }),
                (CUpdate { action: Action::DROP, cap_type: t, capability: c }),
            ],
        ) == spec_update_one(s, CUpdate { action: Action::DROP, cap_type: t, capability: c }),
        spec_update_seq(
            s,
            seq![
                (CUpdate { action: Action::DROP, cap_type: t, capability: c }),
                (CUpdate { action: Action::ADD, cap_type: t, capability: c }),
            ],
        ) == spec_update_one(s, CUpdate { action: Action::ADD, cap_type: t, capability: c }),
{
    reveal_with_fuel(spec_update_seq, 3);
    let b = spec_cap_bit(c);
    lemma_bv_mask_order(s.effective, b);
    lemma_bv_mask_order(s.permitted, b);
    lemma_bv_mask_order(s.inheritable, b);
    lemma_bv_mask_order(s.bounding, b);
    let add = CUpdate { action: Action::ADD, cap_type: t, capability: c };
    let drop = CUpdate { action: Action::DROP, cap_type: t, capability: c };
    assert(seq![add, drop].skip(1) =~= seq![drop]);
    assert(seq![drop, add].skip(1) =~= seq![add]);
    assert(seq![drop].skip(1) =~= Seq::<CUpdate>::empty());
    assert(seq![add].skip(1) =~= Seq::<CUpdate>::empty());
}

/// Snapshot fidelity: restoring what was saved from a staged state yields
/// that very state again, so the query classifies the restored state
/// identically to the saved state in every scope.
pub proof fn lemma_snapshot_fidelity(s: StagedState, scope: Scope)
    ensures
        spec_restore(spec_save(s)) == s,
        spec_have_caps(spec_restore(spec_save(s)), scope) == spec_have_caps(s, scope),
{
}

proof fn lemma_bv_bit_effect(m: u64, i: u64, j: u64)
    requires
        i < 64,
        j < 64,
    ensures
        (m | (1u64 << i)) & (1u64 << i) != 0,
        (m & !(1u64 << i)) & (1u64 << i) == 0,
        i != j ==> (m | (1u64 << i)) & (1u64 << j) == m & (1u64 << j),
        i != j ==> (m & !(1u64 << i)) & (1u64 << j) == m & (1u64 << j),
{
    assert((m | (1u64 << i)) & (1u64 << i) != 0) by (bit_vector)
        requires
            i < 64,
    ;
    assert((m & !(1u64 << i)) & (1u64 << i) == 0) by (bit_vector);
    assert(i != j ==> (m | (1u64 << i)) & (1u64 << j) == m & (1u64 << j)) by (bit_vector)
        requires
            i < 64 && j < 64,
    ;
    assert(i != j ==> (m & !(1u64 << i)) & (1u64 << j) == m & (1u64 << j)) by (bit_vector)
        requires
            i < 64 && j < 64,
    ;
}

/// Coherence of updates and single-capability tests, for any one kind:
/// after adding a capability to that kind it tests present, after dropping
/// it it tests absent, and either way every other capability of that kind
/// tests as it did before.
pub proof fn lemma_update_effect(s: StagedState, t: Type, c: Capability, c2: Capability)
    requires
        spec_cap_valid(c),
        spec_cap_valid(c2),
        t.bits == 1 || t.bits == 2 || t.bits == 4 || t.bits == 8,
    ensures
        spec_have_capability(
            spec_update_one(s, CUpdate { action: Action::ADD, cap_type: t, capability: c }),
            t,
            c,
        ),
        !spec_have_capability(
            spec_update_one(s, CUpdate { action: Action::DROP, cap_type: t, capability: c }),
            t,
            c,
        ),
        c2 != c ==> spec_have_capability(
            spec_update_one(s, CUpdate { action: Action::ADD, cap_type: t, capability: c }),
            t,
            c2,
        ) == spec_have_capability(s, t, c2),
        c2 != c ==> spec_have_capability(
            spec_update_one(s, CUpdate { action: Action::DROP, cap_type: t, capability: c }),
            t,
            c2,
        ) == spec_have_capability(s, t, c2),
{
    assert(1u32 & 1 == 1 && 1u32 & 2 == 0 && 1u32 & 4 == 0 && 1u32 & 8 == 0 && 2u32 & 1 == 0
        && 2u32 & 2 == 2 && 2u32 & 4 == 0 && 2u32 & 8 == 0 && 4u32 & 1 == 0 && 4u32 & 2 == 0
        && 4u32 & 4 == 4 && 4u32 & 8 == 0 && 8u32 & 1 == 0 && 8u32 & 2 == 0 && 8u32 & 4 == 0
        && 8u32 & 8 == 8) by (bit_vector);
    lemma_bv_bit_effect(s.effective, c as u64, c2 as u64);
    lemma_bv_bit_effect(s.permitted, c as u64, c2 as u64);
    lemma_bv_bit_effect(s.inheritable, c as u64, c2 as u64);
    lemma_bv_bit_effect(s.bounding, c as u64, c2 as u64);
}

/// Have-capabilities monotonicity: adding any single valid capability bit
/// to an all-clear mask classifies as PARTIAL, and setting every remaining
/// valid bit of a well-formed mask classifies as FULL.
pub proof fn lemma_have_monotonic(c: Capability, m: u64)
    requires
        spec_cap_valid(c),
        m & CAP_MASK_ALL == m,
    ensures
        spec_classify_mask(spec_apply_bit(0, Action::ADD, c)) == HaveCapsResult::PARTIAL,
        spec_classify_mask(m | (CAP_MASK_ALL & !m)) == HaveCapsResult::FULL,
{
    let cc = c as u64;
    assert(0u64 | (1u64 << cc) != 0) by (bit_vector)
        requires
            cc <= 40,
    ;
    assert(0u64 | (1u64 << cc) != 0x1ff_ffff_ffffu64) by (bit_vector)
        requires
            cc <= 40,
    ;
    assert(m | (0x1ff_ffff_ffffu64 & !m) == 0x1ff_ffff_ffffu64) by (bit_vector)
        requires
            m & 0x1ff_ffff_ffffu64 == m,
    ;
    assert(0x1ff_ffff_ffffu64 != 0) by (bit_vector);
}

} // verus!
