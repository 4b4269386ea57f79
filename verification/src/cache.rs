//! The last-known-state cache: the value the poller owns between ticks,
//! together with its durable text representation. The representation is
//! framed and checked here; storage hands the text back unchanged.

use vstd::prelude::*;

use crate::digits::{
    dec_digits, digit_run_end, digits_val, is_digit, lemma_dec_digits_are_digits,
    lemma_digit_run_end_is, lemma_digits_val_of_dec, parse_u64, push_dec,
};
use crate::game::{Game, GameView};
use crate::tracker::{TrackedState, TrackedView, tracked_opt_view};

verus! {

/// The durable text for a tracked game: tag, start instant, id length,
/// then the id and the name themselves.
pub open spec fn cache_repr_some(since: u64, id: Seq<char>, name: Seq<char>) -> Seq<char> {
    seq!['S'] + dec_digits(since as nat) + seq![';'] + dec_digits(id.len()) + seq![';'] + id + name
}

/// The durable text of a cache value. `N` stands for "nothing active".
pub open spec fn cache_repr(v: Option<TrackedView>) -> Seq<char> {
    match v {
        None => seq!['N'],
        Some(t) => cache_repr_some(t.since, t.game.id, t.game.name),
    }
}

/// How the durable text of an active state is laid out: where each field
/// starts and ends, and that the numeric runs parse back to the fields.
pub proof fn lemma_repr_shape(since: u64, id: Seq<char>, name: Seq<char>, s: Seq<char>)
    requires
        s == cache_repr_some(since, id, name),
    ensures
        ({
            let e0 = 1 + dec_digits(since as nat).len() as int;
            let e1 = e0 + 1 + dec_digits(id.len()).len() as int;
            &&& s.len() == e1 + 1 + id.len() + name.len()
            &&& s.len() >= 1
            &&& s[0] == 'S'
            &&& 1 < e0
            &&& e0 + 1 < e1
            &&& digit_run_end(s, 1) == e0
            &&& digits_val(s.subrange(1, e0)) == since
            &&& e0 < s.len()
            &&& s[e0] == ';'
            &&& digit_run_end(s, e0 + 1) == e1
            &&& digits_val(s.subrange(e0 + 1, e1)) == id.len()
            &&& e1 < s.len()
            &&& s[e1] == ';'
            &&& s.subrange(e1 + 1, e1 + 1 + id.len() as int) == id
            &&& s.subrange(e1 + 1 + id.len() as int, s.len() as int) == name
        }),
{
    let a = dec_digits(since as nat);
    let b = dec_digits(id.len());
    let e0 = 1 + a.len() as int;
    let e1 = e0 + 1 + b.len() as int;
    lemma_dec_digits_are_digits(since as nat);
    lemma_dec_digits_are_digits(id.len());
    assert(s.len() == e1 + 1 + id.len() + name.len());
    assert(s[0] == 'S');
    assert(s.subrange(1, e0) =~= a);
    assert forall|j: int| 1 <= j < e0 implies is_digit(#[trigger] s[j]) by {
        assert(s[j] == a[j - 1]);
    }
    assert(s[e0] == ';');
    lemma_digit_run_end_is(s, 1, e0);
    lemma_digits_val_of_dec(since as nat);
    assert(s.subrange(e0 + 1, e1) =~= b);
    assert forall|j: int| e0 + 1 <= j < e1 implies is_digit(#[trigger] s[j]) by {
        assert(s[j] == b[j - (e0 + 1)]);
    }
    assert(s[e1] == ';');
    lemma_digit_run_end_is(s, e0 + 1, e1);
    lemma_digits_val_of_dec(id.len());
    assert(s.subrange(e1 + 1, e1 + 1 + id.len() as int) =~= id);
    assert(s.subrange(e1 + 1 + id.len() as int, s.len() as int) =~= name);
}

/// The durable text determines the cache value: two values with the same
/// representation are the same. Together with the codec contracts below
/// this is why reloading a persisted cache reproduces the identical state.
pub proof fn lemma_cache_repr_injective(u: Option<TrackedView>, v: Option<TrackedView>)
    requires
        cache_repr(u) == cache_repr(v),
    ensures
        u == v,
{
    let s = cache_repr(u);
    match (u, v) {
        (None, None) => {
        },
        (None, Some(t)) => {
            lemma_repr_shape(t.since, t.game.id, t.game.name, s);
            assert(s[0] == 'N');
            assert(false);
        },
        (Some(t), None) => {
            lemma_repr_shape(t.since, t.game.id, t.game.name, s);
            assert(cache_repr(v)[0] == 'N');
            assert(false);
        },
        (Some(t), Some(w)) => {
            lemma_repr_shape(t.since, t.game.id, t.game.name, s);
            lemma_repr_shape(w.since, w.game.id, w.game.name, s);
            assert(t.game.id =~= w.game.id);
            assert(t.game.name =~= w.game.name);
        },
    }
}

/// The in-memory cache value: the tracked state, or nothing active.
pub struct CacheState {
    state: Option<TrackedState>,
}

impl View for CacheState {
    type V = Option<TrackedView>;

    closed spec fn view(&self) -> Option<TrackedView> {
        tracked_opt_view(self.state)
    }
}

impl CacheState {
    /// The default at first start, when nothing was ever persisted.
    pub fn empty() -> (r: CacheState)
        ensures
            r@ is None,
    {
        CacheState { state: None }
    }

    pub fn new(state: Option<TrackedState>) -> (r: CacheState)
        ensures
            r@ == tracked_opt_view(state),
    {
        CacheState { state }
    }

    /// A reader's snapshot of the current value.
    pub fn current(&self) -> (r: &Option<TrackedState>)
        ensures
            tracked_opt_view(*r) == self@,
    {
        &self.state
    }

    /// Replace the value; the caller persists the new representation.
    pub fn set(&mut self, state: Option<TrackedState>)
        ensures
            final(self)@ == tracked_opt_view(state),
    {
        self.state = state;
    }

    /// The durable text for this value.
    pub fn encode(&self) -> (r: String)
        ensures
            r@ == cache_repr(self@),
    {
        proof {
            reveal_strlit("N");
            reveal_strlit("S");
            reveal_strlit(";");
        }
        let mut out = String::new();
        match &self.state {
            None => {
                out.append("N");
                proof {
                    assert(out@ =~= cache_repr(self@));
                }
            },
            Some(t) => {
                out.append("S");
                push_dec(&mut out, t.since);
                out.append(";");
                let id_len = t.game.id().as_str().unicode_len();
                push_dec(&mut out, id_len as u64);
                out.append(";");
                out.append(t.game.id().as_str());
                out.append(t.game.name().as_str());
                proof {
                    assert(out@ =~= cache_repr(self@));
                }
            },
        }
        out
    }

    /// Read a durable text back. Returns the value it represents, or
    /// `None` when the text is not the representation of any value.
    pub fn decode(s: &str) -> (r: Option<CacheState>)
        ensures
            r matches Some(c) ==> s@ == cache_repr(c@),
            forall|v: Option<TrackedView>| s@ == cache_repr(v) ==> (r matches Some(c) && c@ == v),
    {
        proof {
            reveal_strlit("N");
            reveal_strlit("S");
        }
        let len = s.unicode_len();
        if len == 0 {
            proof {
                assert forall|v: Option<TrackedView>| s@ != cache_repr(v) by {
                    cache_repr_nonempty(v);
                }
            }
            return None;
        }
        let tag = s.get_char(0);
        if tag == 'N' {
            if len == 1 {
                let c = CacheState { state: None };
                proof {
                    assert(s@ =~= cache_repr(None::<TrackedView>));
                    assert forall|v: Option<TrackedView>|
                        s@ == cache_repr(v) implies c@ == v by {
                        lemma_cache_repr_injective(None::<TrackedView>, v);
                    }
                }
                return Some(c);
            }
            proof {
                assert forall|v: Option<TrackedView>| s@ != cache_repr(v) by {
                    if s@ == cache_repr(v) {
                        match v {
                            None => assert(s@.len() == 1),
                            Some(t) => {
                                lemma_repr_shape(t.since, t.game.id, t.game.name, s@);
                                assert(s@[0] == 'S');
                            },
                        }
                    }
                }
            }
            return None;
        }
        if tag != 'S' {
            proof {
                assert forall|v: Option<TrackedView>| s@ != cache_repr(v) by {
                    if s@ == cache_repr(v) {
                        match v {
                            None => assert(s@[0] == 'N'),
                            Some(t) => {
                                lemma_repr_shape(t.since, t.game.id, t.game.name, s@);
                                assert(s@[0] == 'S');
                            },
                        }
                    }
                }
            }
            return None;
        }
        Self::decode_active(s, len)
    }

    /// The `S`-tagged arm of `decode`: a tracked game's representation.
    fn decode_active(s: &str, len: usize) -> (r: Option<CacheState>)
        requires
            len == s@.len(),
            len >= 1,
            s@[0] == 'S',
        ensures
            r matches Some(c) ==> s@ == cache_repr(c@),
            forall|v: Option<TrackedView>| s@ == cache_repr(v) ==> (r matches Some(c) && c@ == v),
    {
        let since_parse = parse_u64(s, 1);
        let (since, e0) = match since_parse {
            Some(p) => p,
            None => {
                proof {
                    assert forall|v: Option<TrackedView>| s@ != cache_repr(v) by {
                        if s@ == cache_repr(v) {
                            match v {
                                None => {
                                    assert(s@[0] == 'N');
                                    assert(false);
                                },
                                Some(t) => {
                                    lemma_repr_shape(t.since, t.game.id, t.game.name, s@);
                                    assert(false);
                                },
                            }
                        }
                    }
                }
                return None;
            },
        };
        if e0 >= len || s.get_char(e0) != ';' {
            proof {
                assert forall|v: Option<TrackedView>| s@ != cache_repr(v) by {
                    if s@ == cache_repr(v) {
                        match v {
                            None => {
                                assert(s@[0] == 'N');
                                assert(false);
                            },
                            Some(t) => {
                                lemma_repr_shape(t.since, t.game.id, t.game.name, s@);
                                assert(false);
                            },
                        }
                    }
                }
            }
            return None;
        }
        let idlen_parse = parse_u64(s, e0 + 1);
        let (idlen64, e1) = match idlen_parse {
            Some(p) => p,
            None => {
                proof {
                    assert forall|v: Option<TrackedView>| s@ != cache_repr(v) by {
                        if s@ == cache_repr(v) {
                            match v {
                                None => {
                                    assert(s@[0] == 'N');
                                    assert(false);
                                },
                                Some(t) => {
                                    lemma_repr_shape(t.since, t.game.id, t.game.name, s@);
                                    assert(t.game.id.len() <= s@.len());
                                    assert(false);
                                },
                            }
                        }
                    }
                }
                return None;
            },
        };
        if e1 >= len || s.get_char(e1) != ';' {
            proof {
                assert forall|v: Option<TrackedView>| s@ != cache_repr(v) by {
                    if s@ == cache_repr(v) {
                        match v {
                            None => {
                                assert(s@[0] == 'N');
                                assert(false);
                            },
                            Some(t) => {
                                lemma_repr_shape(t.since, t.game.id, t.game.name, s@);
                                assert(false);
                            },
                        }
                    }
                }
            }
            return None;
        }
        let p = e1 + 1;
        if idlen64 > (len - p) as u64 {
            proof {
                assert forall|v: Option<TrackedView>| s@ != cache_repr(v) by {
                    if s@ == cache_repr(v) {
                        match v {
                            None => {
                                assert(s@[0] == 'N');
                                assert(false);
                            },
                            Some(t) => {
                                lemma_repr_shape(t.since, t.game.id, t.game.name, s@);
                                assert(s@.len() >= e1 + 1 + t.game.id.len());
                                assert(false);
                            },
                        }
                    }
                }
            }
            return None;
        }
        let idlen = idlen64 as usize;
        let id_str = s.substring_char(p, p + idlen);
        let name_str = s.substring_char(p + idlen, len);
        let game = Game::new(String::from_str(name_str), String::from_str(id_str));
        let state = TrackedState { game, since };
        let c = CacheState { state: Some(state) };
        let enc = c.encode();
        let given = String::from_str(s);
        if enc == given {
            proof {
                assert forall|v: Option<TrackedView>| s@ == cache_repr(v) implies c@ == v by {
                    lemma_cache_repr_injective(c@, v);
                }
            }
            Some(c)
        } else {
            proof {
                assert forall|v: Option<TrackedView>| s@ != cache_repr(v) by {
                    if s@ == cache_repr(v) {
                        match v {
                            None => {
                                assert(s@[0] == 'N');
                                assert(false);
                            },
                            Some(t) => {
                                lemma_repr_shape(t.since, t.game.id, t.game.name, s@);
                                assert(id_str@ =~= t.game.id);
                                assert(name_str@ =~= t.game.name);
                                assert(c@ == v);
                                assert(enc@ == cache_repr(v));
                                assert(false);
                            },
                        }
                    }
                }
            }
            None
        }
    }
}

pub proof fn cache_repr_nonempty(v: Option<TrackedView>)
    ensures
        cache_repr(v).len() >= 1,
{
    match v {
        None => {
        },
        Some(t) => {
            lemma_repr_shape(t.since, t.game.id, t.game.name, cache_repr(v));
        },
    }
}

} // verus!
