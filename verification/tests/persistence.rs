//! Tests for the durable cache representation: encoding, reloading, and
//! rejection of text that represents no state.

use steam_sessions::{CacheState, Game, TrackedState, u64_to_dec};

fn active_cache(name: &str, id: &str, since: u64) -> CacheState {
    CacheState::new(Some(TrackedState {
        game: Game::new(String::from(name), String::from(id)),
        since,
    }))
}

#[test]
fn empty_cache_round_trips() {
    let cache = CacheState::empty();
    let text = cache.encode();
    assert_eq!(text.as_str(), "N");
    let reloaded = CacheState::decode(text.as_str()).expect("the representation must decode");
    assert!(reloaded.current().is_none());
}

#[test]
fn tracked_cache_round_trips() {
    let cache = active_cache("Dwarf Fortress", "975370", 1_700_000_123_456);
    let text = cache.encode();
    assert_eq!(text.as_str(), "S1700000123456;6;975370Dwarf Fortress");
    let reloaded = CacheState::decode(text.as_str()).expect("the representation must decode");
    match reloaded.current() {
        Some(t) => {
            assert_eq!(t.since, 1_700_000_123_456);
            assert_eq!(t.game.id().as_str(), "975370");
            assert_eq!(t.game.name().as_str(), "Dwarf Fortress");
        },
        None => panic!("the reloaded cache lost its state"),
    }
}

#[test]
fn awkward_names_round_trip() {
    let cases = [
        ("", ""),
        ("semi;colon", "1"),
        ("12;34", "56;78"),
        ("Ünïcødé ☃", "999"),
        ("S1;2;3", "N"),
    ];
    for (name, id) in cases {
        let cache = active_cache(name, id, 42);
        let text = cache.encode();
        let reloaded = CacheState::decode(text.as_str()).expect("the representation must decode");
        match reloaded.current() {
            Some(t) => {
                assert_eq!(t.since, 42);
                assert_eq!(t.game.id().as_str(), id);
                assert_eq!(t.game.name().as_str(), name);
            },
            None => panic!("the reloaded cache lost its state"),
        }
    }
}

#[test]
fn garbage_is_rejected() {
    for text in [
        "", "X", "NN", "S", "S;", "S12", "S12;", "S12;x", "S12;3;ab", "S12;4;abc",
        "S07;1;xy", "S99999999999999999999;1;ab",
    ] {
        assert!(
            CacheState::decode(text).is_none(),
            "text {:?} must not decode",
            text
        );
    }
}

#[test]
fn decimal_rendering_is_exact() {
    assert_eq!(u64_to_dec(0).as_str(), "0");
    assert_eq!(u64_to_dec(7).as_str(), "7");
    assert_eq!(u64_to_dec(8230).as_str(), "8230");
    assert_eq!(u64_to_dec(u64::MAX).as_str(), "18446744073709551615");
}
