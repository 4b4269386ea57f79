//! The library's model of the append-only event store, as far as the
//! tracker uses it: stored covers, stored sessions, and the queries the
//! read endpoints make. The store itself is an external collaborator; this
//! model states the semantics every run of the tracker relies on, and the
//! orchestration code mirrors each method with one store call.

use vstd::prelude::*;

use crate::covers::{
    CoverRecord, CoverRecordView, b64_decode_of, decode_cover_data,
};
use crate::digits::{
    dec_digits, digit_run_end, digits_val, is_digit, lemma_dec_digits_are_digits,
    lemma_digit_run_end_is, lemma_digits_val_of_dec,
};
use crate::game::{Game, GameView};
use crate::tracker::TimeRange;

verus! {

/// The composite storage key of a completed session: the game's id and the
/// rendered range, so that re-submitting the same session hits the same key.
pub open spec fn session_key_spec(id: Seq<char>, start: u64, end: u64) -> Seq<char> {
    id + seq!['@'] + dec_digits(start as nat) + seq!['-'] + dec_digits(end as nat)
}

/// Render the composite storage key of a session.
pub fn session_key(id: &String, start: u64, end: u64) -> (r: String)
    ensures
        r@ == session_key_spec(id@, start, end),
{
    proof {
        reveal_strlit("@");
        reveal_strlit("-");
    }
    let mut out = id.clone();
    out.append("@");
    crate::digits::push_dec(&mut out, start);
    out.append("-");
    crate::digits::push_dec(&mut out, end);
    proof {
        assert(out@ =~= session_key_spec(id@, start, end));
    }
    out
}

/// For ids free of the separator (the platform's ids are decimal digits),
/// the composite key determines the id and the range: distinct sessions
/// get distinct storage keys, so re-submitting a session hits its own key
/// and no other.
pub proof fn lemma_session_key_injective(
    id1: Seq<char>,
    s1: u64,
    e1: u64,
    id2: Seq<char>,
    s2: u64,
    e2: u64,
)
    requires
        forall|i: int| 0 <= i < id1.len() ==> id1[i] != '@',
        forall|i: int| 0 <= i < id2.len() ==> id2[i] != '@',
        session_key_spec(id1, s1, e1) == session_key_spec(id2, s2, e2),
    ensures
        id1 == id2,
        s1 == s2,
        e1 == e2,
{
    let k = session_key_spec(id1, s1, e1);
    let a1 = dec_digits(s1 as nat);
    let a2 = dec_digits(s2 as nat);
    let b1 = dec_digits(e1 as nat);
    let b2 = dec_digits(e2 as nat);
    lemma_dec_digits_are_digits(s1 as nat);
    lemma_dec_digits_are_digits(s2 as nat);
    lemma_dec_digits_are_digits(e1 as nat);
    lemma_dec_digits_are_digits(e2 as nat);
    let n1 = id1.len() as int;
    let n2 = id2.len() as int;
    assert(k[n1] == '@');
    assert(session_key_spec(id2, s2, e2)[n2] == '@');
    if n1 < n2 {
        assert(k[n1] == id2[n1]);
        assert(false);
    }
    if n2 < n1 {
        assert(session_key_spec(id2, s2, e2)[n2] == id1[n2]);
        assert(false);
    }
    assert forall|i: int| 0 <= i < n1 implies id1[i] == id2[i] by {
        assert(k[i] == id1[i]);
        assert(session_key_spec(id2, s2, e2)[i] == id2[i]);
    }
    assert(id1 =~= id2);
    let p = n1 + 1;
    assert forall|j: int| p <= j < p + a1.len() implies is_digit(#[trigger] k[j]) by {
        assert(k[j] == a1[j - p]);
    }
    assert(k[p + a1.len()] == '-');
    lemma_digit_run_end_is(k, p, p + a1.len());
    assert forall|j: int| p <= j < p + a2.len() implies is_digit(#[trigger] k[j]) by {
        assert(k[j] == a2[j - p]);
    }
    assert(k[p + a2.len()] == '-');
    lemma_digit_run_end_is(k, p, p + a2.len());
    assert(a1.len() == a2.len());
    assert(a1 =~= k.subrange(p, p + a1.len()));
    assert(a2 =~= k.subrange(p, p + a2.len()));
    lemma_digits_val_of_dec(s1 as nat);
    lemma_digits_val_of_dec(s2 as nat);
    let q = p + a1.len() + 1;
    assert(b1 =~= k.subrange(q, k.len() as int));
    assert(b2 =~= k.subrange(q, k.len() as int));
    lemma_digits_val_of_dec(e1 as nat);
    lemma_digits_val_of_dec(e2 as nat);
}

/// The mathematical content of a stored session record.
pub struct SessionRecordView {
    pub key: Seq<char>,
    pub game: GameView,
    pub start: u64,
    pub end: u64,
}

/// One completed session as stored: its dedup key, the game, and the
/// half-open range `[start, end)` it spans.
pub struct SessionRecord {
    pub key: String,
    pub game: Game,
    pub start: u64,
    pub end: u64,
}

impl View for SessionRecord {
    type V = SessionRecordView;

    open spec fn view(&self) -> SessionRecordView {
        SessionRecordView { key: self.key@, game: self.game@, start: self.start, end: self.end }
    }
}

/// The mathematical content of the store model.
pub struct StoreView {
    pub covers: Seq<CoverRecordView>,
    pub sessions: Seq<SessionRecordView>,
}

pub open spec fn spec_has_cover(covers: Seq<CoverRecordView>, game_id: Seq<char>) -> bool {
    exists|i: int| 0 <= i < covers.len() && covers[i].game_id == game_id
}

pub open spec fn spec_has_session(sessions: Seq<SessionRecordView>, key: Seq<char>) -> bool {
    exists|i: int| 0 <= i < sessions.len() && sessions[i].key == key
}

/// The first stored cover for a game, in insertion order.
pub open spec fn spec_find_cover(covers: Seq<CoverRecordView>, game_id: Seq<char>) -> Option<
    CoverRecordView,
>
    decreases covers.len(),
{
    if covers.len() == 0 {
        None
    } else if covers[0].game_id == game_id {
        Some(covers[0])
    } else {
        spec_find_cover(covers.drop_first(), game_id)
    }
}

/// An in-memory model of the event store's records.
pub struct StoreModel {
    covers: Vec<CoverRecord>,
    sessions: Vec<SessionRecord>,
}

impl View for StoreModel {
    type V = StoreView;

    closed spec fn view(&self) -> StoreView {
        StoreView {
            covers: self.covers@.map(|i: int, c: CoverRecord| c@),
            sessions: self.sessions@.map(|i: int, s: SessionRecord| s@),
        }
    }
}

impl StoreModel {
    pub fn new() -> (r: StoreModel)
        ensures
            r@.covers.len() == 0,
            r@.sessions.len() == 0,
    {
        StoreModel { covers: Vec::new(), sessions: Vec::new() }
    }

    /// The existence query the cover guard makes before any fetch.
    pub fn has_cover(&self, game_id: &String) -> (r: bool)
        ensures
            r == spec_has_cover(self@.covers, game_id@),
    {
        let n = self.covers.len();
        let mut j: usize = 0;
        while j < n
            invariant
                j <= n,
                n == self.covers.len(),
                forall|i: int| 0 <= i < j ==> self@.covers[i].game_id != game_id@,
            decreases n - j,
        {
            if self.covers[j].game_id == *game_id {
                assert(self@.covers[j as int].game_id == game_id@);
                return true;
            }
            j = j + 1;
        }
        false
    }

    /// Append a cover record; covers are written once per game, guarded by
    /// the existence check above.
    pub fn insert_cover(&mut self, rec: CoverRecord)
        ensures
            final(self)@.covers == old(self)@.covers.push(rec@),
            final(self)@.sessions == old(self)@.sessions,
    {
        let ghost v = rec@;
        self.covers.push(rec);
        proof {
            assert(self@.covers =~= old(self)@.covers.push(v));
            assert(self@.sessions =~= old(self)@.sessions);
        }
    }

    /// Append a session record unless its key is already stored: inserting
    /// the same completed session twice is a no-op, not a duplicate.
    pub fn insert_session(&mut self, rec: SessionRecord) -> (r: bool)
        ensures
            final(self)@.covers == old(self)@.covers,
            spec_has_session(old(self)@.sessions, rec@.key) ==> final(self)@.sessions == old(
                self,
            )@.sessions && r == false,
            !spec_has_session(old(self)@.sessions, rec@.key) ==> final(self)@.sessions == old(
                self,
            )@.sessions.push(rec@) && r == true,
    {
        let n = self.sessions.len();
        let mut j: usize = 0;
        while j < n
            invariant
                j <= n,
                n == self.sessions.len(),
                forall|i: int| 0 <= i < j ==> self@.sessions[i].key != rec@.key,
            decreases n - j,
        {
            if self.sessions[j].key == rec.key {
                assert(self@.sessions[j as int].key == rec@.key);
                return false;
            }
            j = j + 1;
        }
        let ghost v = rec@;
        self.sessions.push(rec);
        proof {
            assert(self@.sessions =~= old(self)@.sessions.push(v));
            assert(self@.covers =~= old(self)@.covers);
        }
        true
    }

    /// The stored sessions, for tests and for callers that list them.
    pub fn session_count(&self) -> (r: usize)
        ensures
            r == self@.sessions.len(),
    {
        self.sessions.len()
    }

    pub fn session_at(&self, j: usize) -> (r: &SessionRecord)
        requires
            j < self@.sessions.len(),
        ensures
            r@ == self@.sessions[j as int],
    {
        &self.sessions[j]
    }

    /// The compute half of the read endpoint serving a game's cover: find
    /// the stored record and decode its data; nothing when no cover is
    /// stored or the stored text is not valid base64.
    pub fn cover_response(&self, game_id: &String) -> (r: Option<Vec<u8>>)
        ensures
            spec_find_cover(self@.covers, game_id@) is None ==> r is None,
            spec_find_cover(self@.covers, game_id@) matches Some(c) ==> ((r matches Some(b) &&
            b64_decode_of(c.data) == Some(b@)) || (r is None && b64_decode_of(c.data) is None)),
    {
        let n = self.covers.len();
        let mut j: usize = 0;
        proof {
            assert(self@.covers.skip(0) =~= self@.covers);
        }
        while j < n
            invariant
                j <= n,
                n == self.covers.len(),
                spec_find_cover(self@.covers, game_id@) == spec_find_cover(
                    self@.covers.skip(j as int),
                    game_id@,
                ),
                forall|i: int| 0 <= i < j ==> self@.covers[i].game_id != game_id@,
            decreases n - j,
        {
            proof {
                assert(self@.covers.skip(j as int)[0] == self@.covers[j as int]);
            }
            if self.covers[j].game_id == *game_id {
                return decode_cover_data(&self.covers[j].data);
            }
            proof {
                assert(self@.covers.skip(j as int).drop_first() =~= self@.covers.skip(j + 1));
            }
            j = j + 1;
        }
        proof {
            assert(self@.covers.skip(n as int) =~= Seq::<CoverRecordView>::empty());
        }
        None
    }
}

/// The mathematical content of one compressed event.
pub struct CompressedEventView {
    pub title: Seq<char>,
    pub start: u64,
    pub end: u64,
    pub game: GameView,
}

/// One completed session as the aggregating caller consumes it: the
/// display title, the span, and the game itself.
pub struct CompressedEvent {
    pub title: String,
    pub start: u64,
    pub end: u64,
    pub game: Game,
}

impl View for CompressedEvent {
    type V = CompressedEventView;

    open spec fn view(&self) -> CompressedEventView {
        CompressedEventView { title: self.title@, start: self.start, end: self.end, game: self.game@ }
    }
}

/// Whether the half-open spans `[s, e)` and `[qs, qe)` intersect.
pub open spec fn spans_overlap(s: u64, e: u64, qs: u64, qe: u64) -> bool {
    s < qe && qs < e
}

/// The stored sessions overlapping a query range, in stored order, each
/// compressed to its title, span and game.
pub open spec fn compressed_of(sessions: Seq<SessionRecordView>, qs: u64, qe: u64) -> Seq<
    CompressedEventView,
>
    decreases sessions.len(),
{
    if sessions.len() == 0 {
        Seq::empty()
    } else {
        let rest = compressed_of(sessions.drop_last(), qs, qe);
        let s = sessions.last();
        if spans_overlap(s.start, s.end, qs, qe) {
            rest.push(
                CompressedEventView { title: s.game.name, start: s.start, end: s.end, game: s.game },
            )
        } else {
            rest
        }
    }
}

impl StoreModel {
    /// The compute half of the range query: every stored session whose span
    /// overlaps the queried range, in stored order.
    pub fn get_compressed_events(&self, query_range: &TimeRange) -> (r: Vec<CompressedEvent>)
        ensures
            r@.map(|i: int, e: CompressedEvent| e@) == compressed_of(
                self@.sessions,
                query_range.start,
                query_range.end,
            ),
    {
        let n = self.sessions.len();
        let mut out: Vec<CompressedEvent> = Vec::new();
        let mut j: usize = 0;
        while j < n
            invariant
                j <= n,
                n == self.sessions.len(),
                out@.map(|i: int, e: CompressedEvent| e@) == compressed_of(
                    self@.sessions.take(j as int),
                    query_range.start,
                    query_range.end,
                ),
            decreases n - j,
        {
            let s = &self.sessions[j];
            proof {
                assert(self@.sessions.take(j + 1).drop_last() =~= self@.sessions.take(j as int));
                assert(self@.sessions.take(j + 1).last() == self@.sessions[j as int]);
            }
            let ghost before = out@.map(|i: int, e: CompressedEvent| e@);
            if s.start < query_range.end && query_range.start < s.end {
                let ev = CompressedEvent {
                    title: s.game.name().clone(),
                    start: s.start,
                    end: s.end,
                    game: s.game.clone(),
                };
                let ghost evv = ev@;
                out.push(ev);
                proof {
                    assert(out@.map(|i: int, e: CompressedEvent| e@) =~= before.push(evv));
                }
            }
            j = j + 1;
        }
        proof {
            assert(self@.sessions.take(n as int) =~= self@.sessions);
        }
        out
    }
}

} // verus!
