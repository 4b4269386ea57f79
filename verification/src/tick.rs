//! One polling tick, decided and applied: the observation is compared with
//! the cache, the cache moves to its next state, and a completed session
//! (if any) drives the cover guard and then the session write, in that
//! order. The two network answers a tick may need are supplied as values;
//! the caller performs the round trips.

use vstd::prelude::*;

use crate::cache::CacheState;
use crate::game::Game;
use crate::guard::{EnsureReport, covers_after_ensure, ensure_cover, ensure_fetches};
use crate::signal::FetchError;
use crate::store::{
    SessionRecord, SessionRecordView, StoreModel, session_key, session_key_spec, spec_has_session,
};
use crate::tracker::{
    Action, ActionView, TimeRange, TrackedState, decide, decide_view, game_opt_view, mutates_cache,
    next_view, tracked_opt_view,
};

verus! {

/// Everything one tick decides before it touches the store: the action,
/// the cache's next value, the session to write on a close, and whether
/// the cache changes at all (only then is a durable write owed).
pub struct TickPlan {
    pub action: Action,
    pub new_state: Option<TrackedState>,
    pub session: Option<SessionRecord>,
    pub mutates: bool,
}

/// Decide one tick. Pure: the plan is a function of the cached state, the
/// observation, and the instant of the tick.
pub fn plan_tick(previous: &Option<TrackedState>, current: &Option<Game>, now: u64) -> (r:
    TickPlan)
    requires
        (*previous) matches Some(p) ==> p.since <= now,
    ensures
        r.action@ == decide_view(tracked_opt_view(*previous), game_opt_view(*current), now),
        tracked_opt_view(r.new_state) == next_view(
            tracked_opt_view(*previous),
            game_opt_view(*current),
            now,
        ),
        r.mutates == mutates_cache(tracked_opt_view(*previous), game_opt_view(*current), now),
        r.session is Some <==> decide_view(
            tracked_opt_view(*previous),
            game_opt_view(*current),
            now,
        ) is Close,
        r.session matches Some(rec) ==> (decide_view(
            tracked_opt_view(*previous),
            game_opt_view(*current),
            now,
        ) matches ActionView::Close { game, start, end } && rec@.game == game && rec@.start == start
            && rec@.end == end && rec@.key == session_key_spec(game.id, start, end) && start
            <= end),
{
    let action = decide(previous, current, now);
    let new_state: Option<TrackedState> = match &action {
        Action::Open(g, t) => Some(TrackedState { game: g.clone(), since: *t }),
        Action::Switch(g, t) => Some(TrackedState { game: g.clone(), since: *t }),
        Action::Continue => match previous {
            Some(p) => Some(TrackedState { game: p.game.clone(), since: p.since }),
            None => None,
        },
        Action::Close(_, _) => None,
        Action::Idle => None,
    };
    let session: Option<SessionRecord> = match &action {
        Action::Close(g, range) => Some(
            SessionRecord {
                key: session_key(g.id(), range.start, range.end),
                game: g.clone(),
                start: range.start,
                end: range.end,
            },
        ),
        _ => None,
    };
    let mutates = match &action {
        Action::Continue => false,
        Action::Idle => false,
        _ => true,
    };
    TickPlan { action, new_state, session, mutates }
}

/// What one tick did.
pub struct TickReport {
    /// The tick succeeded; a failed observation or cover fetch is reported
    /// and the loop reschedules regardless.
    pub ok: bool,
    /// The cover guard performed the network fetch.
    pub fetched_cover: bool,
    /// A session record was written to the store.
    pub wrote_session: bool,
}

/// Run one tick against the cache and the store model. A failed
/// observation leaves both untouched. The cache always moves before the
/// store is written, so a failed session write never rolls it back; a
/// failed cover fetch skips the session write, leaving the whole session
/// to a later submission under the same key.
pub fn run_tick(
    cache: &mut CacheState,
    store: &mut StoreModel,
    observation: &Result<Option<Game>, FetchError>,
    cover_fetch: &Result<Vec<u8>, FetchError>,
    now: u64,
) -> (r: TickReport)
    requires
        old(cache)@ matches Some(p) ==> p.since <= now,
        (*cover_fetch) matches Ok(b) ==> b@.len() <= usize::MAX / 4,
    ensures
        observation is Err ==> (final(cache)@ == old(cache)@ && final(store)@ == old(store)@
            && !r.ok && !r.fetched_cover && !r.wrote_session),
        (*observation) matches Ok(cur) ==> final(cache)@ == next_view(
            old(cache)@,
            game_opt_view(cur),
            now,
        ),
        (*observation) matches Ok(cur) && !(decide_view(old(cache)@, game_opt_view(cur), now)
            is Close) ==> (final(store)@ == old(store)@ && r.ok && !r.fetched_cover
            && !r.wrote_session),
        (*observation) matches Ok(cur) ==> (decide_view(
            old(cache)@,
            game_opt_view(cur),
            now,
        ) matches ActionView::Close { game, start, end } ==> ({
            let key = session_key_spec(game.id, start, end);
            &&& r.fetched_cover == ensure_fetches(old(store)@.covers, game.id)
            &&& ((*cover_fetch) matches Ok(b) ==> final(store)@.covers == covers_after_ensure(
                old(store)@.covers,
                game.id,
                b@,
            ))
            &&& (r.fetched_cover && cover_fetch is Err ==> (!r.ok && final(store)@ == old(store)@
                && !r.wrote_session))
            &&& ((!r.fetched_cover || cover_fetch is Ok) ==> (r.ok && (spec_has_session(
                old(store)@.sessions,
                key,
            ) ==> (final(store)@.sessions == old(store)@.sessions && !r.wrote_session)) && (
            !spec_has_session(old(store)@.sessions, key) ==> (final(store)@.sessions == old(
                store,
            )@.sessions.push(
                (SessionRecordView { key: key, game: game, start: start, end: end }),
            ) && r.wrote_session))))
        })),
{
    match observation {
        Err(_) => TickReport { ok: false, fetched_cover: false, wrote_session: false },
        Ok(cur) => {
            let plan = plan_tick(cache.current(), cur, now);
            cache.set(plan.new_state);
            match plan.session {
                None => TickReport { ok: true, fetched_cover: false, wrote_session: false },
                Some(rec) => {
                    let g = rec.game.clone();
                    let report: EnsureReport = ensure_cover(store, &g, cover_fetch);
                    if report.ok {
                        let wrote = store.insert_session(rec);
                        TickReport {
                            ok: true,
                            fetched_cover: report.fetched,
                            wrote_session: wrote,
                        }
                    } else {
                        TickReport {
                            ok: false,
                            fetched_cover: report.fetched,
                            wrote_session: false,
                        }
                    }
                },
            }
        },
    }
}

} // verus!
