//! The session tracker: a pure decision function from (last tracked state,
//! current observation) to the action one polling tick must take, together
//! with the state the cache must hold afterwards.

use vstd::prelude::*;

use crate::game::{Game, GameView};

verus! {

/// The state the cache holds while a game is believed active: the game and
/// the instant (milliseconds) at which it was first observed.
pub struct TrackedState {
    pub game: Game,
    pub since: u64,
}

/// The mathematical content of a `TrackedState`.
pub struct TrackedView {
    pub game: GameView,
    pub since: u64,
}

impl View for TrackedState {
    type V = TrackedView;

    open spec fn view(&self) -> TrackedView {
        TrackedView { game: self.game@, since: self.since }
    }
}

pub open spec fn tracked_opt_view(p: Option<TrackedState>) -> Option<TrackedView> {
    match p {
        Some(t) => Some(t@),
        None => None,
    }
}

pub open spec fn game_opt_view(g: Option<Game>) -> Option<GameView> {
    match g {
        Some(x) => Some(x@),
        None => None,
    }
}

/// A half-open time span `[start, end)` in milliseconds.
pub struct TimeRange {
    pub start: u64,
    pub end: u64,
}

impl TimeRange {
    /// The range invariant: it never runs backwards.
    pub open spec fn wf(self) -> bool {
        self.start <= self.end
    }
}

/// What one observation demands of the tick, at the specification level.
pub enum ActionView {
    /// Nothing was tracked and a game appeared: start tracking it.
    Open { game: GameView, at: u64 },
    /// The tracked game is still being played: leave the cache alone.
    Continue,
    /// A different game appeared while one was tracked: track the new one
    /// from now on. The interrupted span is discarded, never emitted.
    Switch { game: GameView, at: u64 },
    /// The tracked game stopped: emit the completed session and clear.
    Close { game: GameView, start: u64, end: u64 },
    /// Nothing was tracked and nothing is playing.
    Idle,
}

/// The tracker's decision rule. Identity is compared by `id` alone.
pub open spec fn decide_view(prev: Option<TrackedView>, cur: Option<GameView>, now: u64) -> ActionView {
    match (prev, cur) {
        (None, None) => ActionView::Idle,
        (None, Some(g)) => ActionView::Open { game: g, at: now },
        (Some(p), Some(g)) => if p.game.id == g.id {
            ActionView::Continue
        } else {
            ActionView::Switch { game: g, at: now }
        },
        (Some(p), None) => ActionView::Close { game: p.game, start: p.since, end: now },
    }
}

/// The state the cache must hold after the decision is applied.
pub open spec fn next_view(prev: Option<TrackedView>, cur: Option<GameView>, now: u64) -> Option<TrackedView> {
    match decide_view(prev, cur, now) {
        ActionView::Open { game, at } => Some(TrackedView { game, since: at }),
        ActionView::Continue => prev,
        ActionView::Switch { game, at } => Some(TrackedView { game, since: at }),
        ActionView::Close { .. } => None,
        ActionView::Idle => None,
    }
}

/// Whether the decision changes the cache at all (and so forces a durable
/// write): `Continue` and `Idle` leave it untouched.
pub open spec fn mutates_cache(prev: Option<TrackedView>, cur: Option<GameView>, now: u64) -> bool {
    !(decide_view(prev, cur, now) is Continue || decide_view(prev, cur, now) is Idle)
}

/// The executable decision, carrying the data the tick needs.
pub enum Action {
    Open(Game, u64),
    Continue,
    Switch(Game, u64),
    Close(Game, TimeRange),
    Idle,
}

impl View for Action {
    type V = ActionView;

    open spec fn view(&self) -> ActionView {
        match self {
            Action::Open(g, t) => ActionView::Open { game: g@, at: *t },
            Action::Continue => ActionView::Continue,
            Action::Switch(g, t) => ActionView::Switch { game: g@, at: *t },
            Action::Close(g, r) => ActionView::Close { game: g@, start: r.start, end: r.end },
            Action::Idle => ActionView::Idle,
        }
    }
}

/// Decide what one tick must do, given the cached state and the current
/// observation. Observations arrive in time order, so `now` is never
/// earlier than the instant tracking began.
pub fn decide(previous: &Option<TrackedState>, current: &Option<Game>, now: u64) -> (r: Action)
    requires
        (*previous) matches Some(p) ==> p.since <= now,
    ensures
        r@ == decide_view(tracked_opt_view(*previous), game_opt_view(*current), now),
        r matches Action::Close(_, range) ==> range.wf(),
{
    match (previous, current) {
        (None, None) => Action::Idle,
        (None, Some(g)) => Action::Open(g.clone(), now),
        (Some(p), Some(g)) => {
            if p.game.same_identity(g) {
                Action::Continue
            } else {
                Action::Switch(g.clone(), now)
            }
        },
        (Some(p), None) => Action::Close(
            p.game.clone(),
            TimeRange { start: p.since, end: now },
        ),
    }
}

/// A run of observations of one game that ends when the signal goes quiet
/// produces exactly one session, spanning from the first observation of the
/// game to the tick that saw it gone: opening and continuing emit nothing,
/// and the close carries the whole span `[t0, t2)`.
pub proof fn lemma_session_open_then_close(g: GameView, t0: u64, t1: u64, t2: u64)
    requires
        t0 <= t1 <= t2,
    ensures
        !(decide_view(None, Some(g), t0) is Close),
        next_view(None, Some(g), t0) == Some((TrackedView { game: g, since: t0 })),
        !(decide_view(Some((TrackedView { game: g, since: t0 })), Some(g), t1) is Close),
        next_view(Some((TrackedView { game: g, since: t0 })), Some(g), t1) == Some(
            (TrackedView { game: g, since: t0 }),
        ),
        decide_view(Some((TrackedView { game: g, since: t0 })), None, t2) == (ActionView::Close {
            game: g,
            start: t0,
            end: t2,
        }),
        next_view(Some((TrackedView { game: g, since: t0 })), None, t2) is None,
{
}

/// While the same game keeps being observed, no session is ever emitted,
/// the cache is never mutated, and the recorded start instant stays the
/// one of the very first observation.
pub proof fn lemma_continuation_is_noop(g: GameView, t0: u64, t1: u64, t2: u64)
    requires
        t0 <= t1 <= t2,
    ensures
        next_view(None, Some(g), t0) == Some((TrackedView { game: g, since: t0 })),
        decide_view(Some((TrackedView { game: g, since: t0 })), Some(g), t1) is Continue,
        !mutates_cache(Some((TrackedView { game: g, since: t0 })), Some(g), t1),
        next_view(Some((TrackedView { game: g, since: t0 })), Some(g), t1) == Some(
            (TrackedView { game: g, since: t0 }),
        ),
        decide_view(Some((TrackedView { game: g, since: t0 })), Some(g), t2) is Continue,
        next_view(Some((TrackedView { game: g, since: t0 })), Some(g), t2) == Some(
            (TrackedView { game: g, since: t0 }),
        ),
{
}

/// Observing a different game while one is tracked moves the cache straight
/// to the new game with a fresh start instant; the interrupted span is
/// discarded: the step is a `Switch`, never a `Close`, so no session for
/// the first game is emitted. This data loss is the tracker's intended
/// policy for consecutive activity without a gap.
pub proof fn lemma_switch_discards_interrupted_session(a: GameView, b: GameView, t0: u64, t1: u64)
    requires
        a.id != b.id,
        t0 <= t1,
    ensures
        next_view(None, Some(a), t0) == Some((TrackedView { game: a, since: t0 })),
        decide_view(Some((TrackedView { game: a, since: t0 })), Some(b), t1) == (ActionView::Switch {
            game: b,
            at: t1,
        }),
        !(decide_view(Some((TrackedView { game: a, since: t0 })), Some(b), t1) is Close),
        next_view(Some((TrackedView { game: a, since: t0 })), Some(b), t1) == Some(
            (TrackedView { game: b, since: t1 }),
        ),
{
}

/// While nothing is observed and nothing is tracked, ticks neither mutate
/// the cache nor emit a session.
pub proof fn lemma_idle_is_stable(t0: u64, t1: u64)
    ensures
        decide_view(None, None, t0) is Idle,
        !mutates_cache(None, None, t0),
        next_view(None, None, t0) is None,
        decide_view(next_view(None, None, t0), None, t1) is Idle,
        next_view(next_view(None, None, t0), None, t1) is None,
{
}

} // verus!
