//! Laws of the session lifecycle, stated over the store of session records
//! keyed by session id and the active-recording slot.
use vstd::prelude::*;

use crate::controller::{closed, is_opened, with_status};
use crate::models::{Session, SessionStatus};

verus! {

/// Every stored session that is still recording is the slot's occupant.
pub open spec fn slot_covers(occupant: Option<Seq<char>>, store: Map<Seq<char>, Session>) -> bool {
    forall|k: Seq<char>|
        #[trigger] store.contains_key(k) && store[k].status == SessionStatus::Recording
            ==> occupant == Some(k)
}

/// No two stored sessions are recording at once.
pub open spec fn at_most_one_recording(store: Map<Seq<char>, Session>) -> bool {
    forall|a: Seq<char>, b: Seq<char>|
        #![trigger store.contains_key(a), store.contains_key(b)]
        store.contains_key(a) && store.contains_key(b) && store[a].status
            == SessionStatus::Recording && store[b].status == SessionStatus::Recording ==> a == b
}

/// While the slot covers the store, at most one session is recording.
pub proof fn lemma_covered_store_has_one_recording(
    occupant: Option<Seq<char>>,
    store: Map<Seq<char>, Session>,
)
    requires
        slot_covers(occupant, store),
    ensures
        at_most_one_recording(store),
{
}

/// The empty store with an empty slot is covered.
pub proof fn lemma_initially_covered()
    ensures
        slot_covers(None, Map::<Seq<char>, Session>::empty()),
{
}

/// Starting from an empty slot: storing the opened session and claiming the
/// slot for it keeps the store covered, so a single session records.
pub proof fn lemma_start_keeps_one_recording(
    store: Map<Seq<char>, Session>,
    sessions_root: Seq<char>,
    s: Session,
)
    requires
        slot_covers(None, store),
        is_opened(s, sessions_root),
    ensures
        slot_covers(Some(s.id@), store.insert(s.id@, s)),
        at_most_one_recording(store.insert(s.id@, s)),
{
    lemma_covered_store_has_one_recording(Some(s.id@), store.insert(s.id@, s));
}

/// A start refused because the slot is taken changes neither slot nor store.
pub proof fn lemma_refused_start_keeps_one_recording(
    occupant: Option<Seq<char>>,
    store: Map<Seq<char>, Session>,
)
    requires
        slot_covers(occupant, store),
        occupant is Some,
    ensures
        at_most_one_recording(store),
{
    lemma_covered_store_has_one_recording(occupant, store);
}

/// Stopping the occupant: vacating the slot and storing the closed record
/// keeps the store covered, whatever the capture's outcome.
pub proof fn lemma_stop_keeps_one_recording(
    store: Map<Seq<char>, Session>,
    id: Seq<char>,
    ended_at: String,
    capture_ok: bool,
)
    requires
        slot_covers(Some(id), store),
        store.contains_key(id),
    ensures
        slot_covers(None, store.insert(id, closed(store[id], ended_at, capture_ok))),
        at_most_one_recording(store.insert(id, closed(store[id], ended_at, capture_ok))),
{
    let after = store.insert(id, closed(store[id], ended_at, capture_ok));
    lemma_covered_store_has_one_recording(None, after);
}

/// A stop of a session other than the occupant leaves the slot and store,
/// and so the single recording, as they were.
pub proof fn lemma_mismatched_stop_keeps_one_recording(
    store: Map<Seq<char>, Session>,
    occupant: Seq<char>,
    id: Seq<char>,
)
    requires
        slot_covers(Some(occupant), store),
        occupant != id,
    ensures
        slot_covers(Some(occupant), store),
        at_most_one_recording(store),
{
    lemma_covered_store_has_one_recording(Some(occupant), store);
}

/// Analysis of a session that is not the occupant stores a status other than
/// `Recording`, which keeps the store covered.
pub proof fn lemma_analysis_keeps_one_recording(
    occupant: Option<Seq<char>>,
    store: Map<Seq<char>, Session>,
    id: Seq<char>,
    status: SessionStatus,
)
    requires
        slot_covers(occupant, store),
        store.contains_key(id),
        occupant != Some(id),
        status != SessionStatus::Recording,
    ensures
        slot_covers(occupant, store.insert(id, with_status(store[id], status))),
        at_most_one_recording(store.insert(id, with_status(store[id], status))),
{
    lemma_covered_store_has_one_recording(
        occupant,
        store.insert(id, with_status(store[id], status)),
    );
}

/// Closing a recording session follows the transition table and yields a
/// well-formed record.
pub proof fn lemma_close_advances(s: Session, ended_at: String, capture_ok: bool)
    requires
        s.status == SessionStatus::Recording,
    ensures
        s.status.advances_to(closed(s, ended_at, capture_ok).status),
        closed(s, ended_at, capture_ok).well_formed(),
{
}

/// No transition of the table leads back to `Recording`, and none leaves
/// `Analyzed` or `Error`.
pub proof fn lemma_transitions_forward_only(from: SessionStatus, to: SessionStatus)
    requires
        from.advances_to(to),
    ensures
        to != SessionStatus::Recording,
        from != SessionStatus::Analyzed,
        from != SessionStatus::Error,
        from != to,
{
}

} // verus!
