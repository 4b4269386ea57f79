//! The idempotent cover guard: fetch-and-store a game's cover at most
//! once. The guard checks the store first and only a missing cover costs
//! a network fetch; a failed fetch stores nothing, so a later run retries
//! rather than caching the failure.

use vstd::prelude::*;

use crate::covers::{CoverRecordView, b64_of, make_cover_record};
use crate::game::Game;
use crate::signal::FetchError;
use crate::store::{StoreModel, spec_has_cover};

verus! {

/// Whether a run of the guard performs the network fetch: exactly when the
/// store holds no cover for the game yet.
pub open spec fn ensure_fetches(covers: Seq<CoverRecordView>, game_id: Seq<char>) -> bool {
    !spec_has_cover(covers, game_id)
}

/// The covers after one run of the guard whose fetch (if any) returned
/// `data`: unchanged when the cover was present, extended by the encoded
/// bytes when it was fetched.
pub open spec fn covers_after_ensure(
    covers: Seq<CoverRecordView>,
    game_id: Seq<char>,
    data: Seq<u8>,
) -> Seq<CoverRecordView> {
    if spec_has_cover(covers, game_id) {
        covers
    } else {
        covers.push((CoverRecordView { game_id: game_id, data: b64_of(data) }))
    }
}

/// What one run of the guard did.
pub struct EnsureReport {
    /// The network fetch was performed.
    pub fetched: bool,
    /// A cover record was written to the store.
    pub wrote: bool,
    /// The run succeeded (a present cover counts as success).
    pub ok: bool,
}

/// One run of the guard against the store, with the network's answer
/// supplied as a value: `fetch` is what the cover fetch would return were
/// it performed. When the store already holds the cover it is not
/// consulted, and neither fetch nor write happens.
pub fn ensure_cover(
    store: &mut StoreModel,
    game: &Game,
    fetch: &Result<Vec<u8>, FetchError>,
) -> (r: EnsureReport)
    requires
        (*fetch) matches Ok(b) ==> b@.len() <= usize::MAX / 4,
    ensures
        r.fetched == ensure_fetches(old(store)@.covers, game@.id),
        r.wrote == (r.fetched && fetch is Ok),
        r.ok == (!r.fetched || fetch is Ok),
        final(store)@.sessions == old(store)@.sessions,
        (*fetch) matches Ok(b) ==> final(store)@.covers == covers_after_ensure(
            old(store)@.covers,
            game@.id,
            b@,
        ),
        fetch is Err ==> final(store)@.covers == old(store)@.covers,
{
    if store.has_cover(game.id()) {
        return EnsureReport { fetched: false, wrote: false, ok: true };
    }
    match fetch {
        Ok(bytes) => {
            store.insert_cover(make_cover_record(game.id(), bytes));
            EnsureReport { fetched: true, wrote: true, ok: true }
        },
        Err(_) => EnsureReport { fetched: true, wrote: false, ok: false },
    }
}

/// Running the guard twice in sequence performs exactly one fetch and one
/// store write when the cover is missing and the fetch succeeds, and none
/// of either when it is already stored: after the first run the cover is
/// present, so the second run fetches nothing, writes nothing, and leaves
/// the store as it stands.
pub proof fn lemma_ensure_cover_idempotent(
    covers: Seq<CoverRecordView>,
    game_id: Seq<char>,
    d1: Seq<u8>,
    d2: Seq<u8>,
)
    ensures
        !ensure_fetches(covers_after_ensure(covers, game_id, d1), game_id),
        covers_after_ensure(covers_after_ensure(covers, game_id, d1), game_id, d2)
            == covers_after_ensure(covers, game_id, d1),
        spec_has_cover(covers, game_id) ==> !ensure_fetches(covers, game_id)
            && covers_after_ensure(covers, game_id, d1) == covers,
{
    let after = covers_after_ensure(covers, game_id, d1);
    if !spec_has_cover(covers, game_id) {
        assert(after[covers.len() as int].game_id == game_id);
    }
}

} // verus!
