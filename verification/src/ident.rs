//! The privilege transition engine's decision side: the ordered sequence of
//! steps a change of the owning uid/gid must take so that capability-relevant
//! state is never briefly more permissive than either the before- or the
//! after-state. The unverified layer around the crate performs each step
//! (group calls, uid/gid calls, the capability commits) in the order planned
//! here and treats the first failure as fatal to the transition.

use vstd::prelude::*;

use crate::flags::Flags;

verus! {

/// One step of an identity transition.
#[derive(Clone, Copy, PartialEq, Eq, Structural, Debug)]
pub enum IdStep {
    /// Drop all supplementary groups.
    DropSupplementaryGroups,
    /// Initialise the supplementary groups of the new identity.
    InitSupplementaryGroups,
    /// Clear the staged bounding set and commit it.
    ClearBoundingSet,
    /// Switch the group identity.
    SetGid,
    /// Switch the user identity.
    SetUid,
    /// Commit the staged process capability sets.
    CommitCapabilities,
}

/// The plan of an identity transition: supplementary-group adjustment first
/// (initialisation wins over a plain drop when both flags are given), then
/// any requested bounding-set clearing — before the identity switch, never
/// after — then the gid and uid switches, and the capability commit last.
pub open spec fn spec_change_id_plan(f: Flags) -> Seq<IdStep> {
    (if f.bits & 4 != 0 {
        seq![IdStep::InitSupplementaryGroups]
    } else if f.bits & 1 != 0 {
        seq![IdStep::DropSupplementaryGroups]
    } else {
        Seq::<IdStep>::empty()
    }) + (if f.bits & 2 != 0 {
        seq![IdStep::ClearBoundingSet]
    } else {
        Seq::<IdStep>::empty()
    }) + seq![IdStep::SetGid, IdStep::SetUid, IdStep::CommitCapabilities]
}

/// Plan the ordered steps of an identity transition for the given flags.
pub fn change_id_plan(flags: Flags) -> (steps: Vec<IdStep>)
    ensures
        steps@ == spec_change_id_plan(flags),
{
    let mut steps: Vec<IdStep> = Vec::new();
    if flags.bits & 4 != 0 {
        steps.push(IdStep::InitSupplementaryGroups);
    } else if flags.bits & 1 != 0 {
        steps.push(IdStep::DropSupplementaryGroups);
    }
    if flags.bits & 2 != 0 {
        steps.push(IdStep::ClearBoundingSet);
    }
    steps.push(IdStep::SetGid);
    steps.push(IdStep::SetUid);
    steps.push(IdStep::CommitCapabilities);
    proof {
        assert(steps@ =~= spec_change_id_plan(flags));
    }
    steps
}

/// Ordering of every identity-transition plan: any supplementary-group step
/// comes before everything else, bounding-set clearing comes before the
/// gid/uid switch, and the capability commit is the last step.
pub proof fn lemma_plan_order(f: Flags)
    ensures
        ({
            let p = spec_change_id_plan(f);
            &&& p.len() > 0
            &&& p.last() == IdStep::CommitCapabilities
            &&& forall|i: int, j: int|
                0 <= i < p.len() && 0 <= j < p.len() && p[i] == IdStep::ClearBoundingSet && (p[j]
                    == IdStep::SetGid || p[j] == IdStep::SetUid) ==> i < j
            &&& forall|i: int, j: int|
                0 <= i < p.len() && 0 <= j < p.len() && (p[i] == IdStep::DropSupplementaryGroups
                    || p[i] == IdStep::InitSupplementaryGroups) && p[j] != p[i] ==> i < j
        }),
{
    let p = spec_change_id_plan(f);
    if f.bits & 4 != 0 {
        if f.bits & 2 != 0 {
            assert(p =~= seq![
                IdStep::InitSupplementaryGroups,
                IdStep::ClearBoundingSet,
                IdStep::SetGid,
                IdStep::SetUid,
                IdStep::CommitCapabilities,
            ]);
        } else {
            assert(p =~= seq![
                IdStep::InitSupplementaryGroups,
                IdStep::SetGid,
                IdStep::SetUid,
                IdStep::CommitCapabilities,
            ]);
        }
    } else if f.bits & 1 != 0 {
        if f.bits & 2 != 0 {
            assert(p =~= seq![
                IdStep::DropSupplementaryGroups,
                IdStep::ClearBoundingSet,
                IdStep::SetGid,
                IdStep::SetUid,
                IdStep::CommitCapabilities,
            ]);
        } else {
            assert(p =~= seq![
                IdStep::DropSupplementaryGroups,
                IdStep::SetGid,
                IdStep::SetUid,
                IdStep::CommitCapabilities,
            ]);
        }
    } else {
        if f.bits & 2 != 0 {
            assert(p =~= seq![
                IdStep::ClearBoundingSet,
                IdStep::SetGid,
                IdStep::SetUid,
                IdStep::CommitCapabilities,
            ]);
        } else {
            assert(p =~= seq![IdStep::SetGid, IdStep::SetUid, IdStep::CommitCapabilities]);
        }
    }
}

} // verus!
