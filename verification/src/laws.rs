//! Laws of the navigation state machine, proved over the abstract
//! transitions of [`crate::app`].
//!
//! Together, [`lemma_init_satisfies_inv`], [`lemma_apply_preserves_inv`] and
//! [`lemma_load_preserves_inv`] show that every reachable state satisfies
//! [`state_inv`]: the cursor is in bounds and present exactly when entries
//! exist, and the error and detail overlays never both hold.

use vstd::prelude::*;

use crate::app::{
    descend_target, nav_locked, spec_apply, spec_ascend_reads, spec_init, spec_load,
    spec_load_listed, state_inv, Command, EntryV, SnapshotResult, StateV,
};

verus! {

/// The startup state satisfies the invariant, whatever the initial snapshot
/// returned.
pub proof fn lemma_init_satisfies_inv(path: Seq<Seq<char>>, r: SnapshotResult)
    ensures
        state_inv(spec_init(path, r)),
{
}

/// Applying any command to a state that satisfies the invariant yields a
/// state that satisfies it again.
pub proof fn lemma_apply_preserves_inv(s: StateV, cmd: Command)
    requires
        state_inv(s),
    ensures
        state_inv(spec_apply(s, cmd)),
{
}

/// Installing any snapshot outcome while navigation is unlocked — the only
/// time a read is owed — preserves the invariant.
pub proof fn lemma_load_preserves_inv(s: StateV, r: SnapshotResult)
    requires
        state_inv(s),
        !nav_locked(s),
    ensures
        state_inv(spec_load(s, r)),
{
}

/// Moving the selection down while the cursor already rests on the last
/// entry leaves the whole state unchanged.
pub proof fn lemma_select_down_at_last_is_noop(s: StateV)
    requires
        state_inv(s),
        s.selected == Some(s.entries.len() - 1),
    ensures
        spec_apply(s, Command::MoveSelectionDown) == s,
{
}

/// Ascending at the filesystem root leaves the whole state — in particular
/// the current path — unchanged.
pub proof fn lemma_ascend_at_root_is_noop(s: StateV)
    requires
        s.path.len() == 0,
    ensures
        spec_apply(s, Command::Ascend) == s,
{
}

/// Descending into the selected directory and then ascending — with any
/// listing installed in between — returns the current path to where it was.
pub proof fn lemma_descend_then_ascend_restores_path(s: StateV, entries: Seq<EntryV>)
    requires
        state_inv(s),
        descend_target(s) is Some,
    ensures
        ({
            let inside = spec_load_listed(spec_apply(s, Command::Descend), entries);
            spec_apply(inside, Command::Ascend).path == s.path
        }),
{
    let inside = spec_load_listed(spec_apply(s, Command::Descend), entries);
    assert(spec_ascend_reads(inside));
    assert(inside.path.drop_last() =~= s.path);
}

} // verus!
