//! Scenario tests for the session tracker and the tick orchestration.

use steam_sessions::{
    Action, CacheState, FetchError, Game, StoreModel, decide, plan_tick, poll_interval_seconds,
    run_tick,
};

fn game_a() -> Game {
    Game::new(String::from("Factorio"), String::from("427520"))
}

fn game_b() -> Game {
    Game::new(String::from("Stellaris"), String::from("281990"))
}

fn ok_cover() -> Result<Vec<u8>, FetchError> {
    Ok(vec![0x89u8, 0x50, 0x4e, 0x47])
}

#[test]
fn open_then_close_emits_one_session() {
    let mut cache = CacheState::empty();
    let mut store = StoreModel::new();

    let r0 = run_tick(&mut cache, &mut store, &Ok(Some(game_a())), &ok_cover(), 0);
    assert!(r0.ok);
    assert!(!r0.wrote_session);
    assert_eq!(store.session_count(), 0);
    match cache.current() {
        Some(t) => {
            assert_eq!(t.since, 0);
            assert_eq!(t.game.id().as_str(), "427520");
        },
        None => panic!("expected a tracked game after the first observation"),
    }

    let r1 = run_tick(&mut cache, &mut store, &Ok(Some(game_a())), &ok_cover(), 30_000);
    assert!(r1.ok);
    assert!(!r1.wrote_session);
    assert_eq!(store.session_count(), 0);

    let r2 = run_tick(&mut cache, &mut store, &Ok(None), &ok_cover(), 60_000);
    assert!(r2.ok);
    assert!(r2.wrote_session);
    assert!(cache.current().is_none());
    assert_eq!(store.session_count(), 1);
    let rec = store.session_at(0);
    assert_eq!(rec.start, 0);
    assert_eq!(rec.end, 60_000);
    assert_eq!(rec.game.id().as_str(), "427520");
    assert_eq!(rec.game.name().as_str(), "Factorio");
    assert_eq!(rec.key.as_str(), "427520@0-60000");
}

#[test]
fn continuation_keeps_since_and_emits_nothing() {
    let mut cache = CacheState::empty();
    let mut store = StoreModel::new();

    run_tick(&mut cache, &mut store, &Ok(Some(game_a())), &ok_cover(), 0);
    run_tick(&mut cache, &mut store, &Ok(Some(game_a())), &ok_cover(), 30_000);
    run_tick(&mut cache, &mut store, &Ok(Some(game_a())), &ok_cover(), 60_000);

    assert_eq!(store.session_count(), 0);
    match cache.current() {
        Some(t) => assert_eq!(t.since, 0),
        None => panic!("expected the game to still be tracked"),
    }
}

#[test]
fn switch_drops_prior_session() {
    let mut cache = CacheState::empty();
    let mut store = StoreModel::new();

    run_tick(&mut cache, &mut store, &Ok(Some(game_a())), &ok_cover(), 0);
    let r1 = run_tick(&mut cache, &mut store, &Ok(Some(game_b())), &ok_cover(), 30_000);

    assert!(r1.ok);
    assert!(!r1.wrote_session);
    assert_eq!(store.session_count(), 0);
    match cache.current() {
        Some(t) => {
            assert_eq!(t.since, 30_000);
            assert_eq!(t.game.id().as_str(), "281990");
        },
        None => panic!("expected the new game to be tracked"),
    }
}

#[test]
fn idle_ticks_touch_nothing() {
    let mut cache = CacheState::empty();
    let mut store = StoreModel::new();

    let r0 = run_tick(&mut cache, &mut store, &Ok(None), &ok_cover(), 0);
    let r1 = run_tick(&mut cache, &mut store, &Ok(None), &ok_cover(), 30_000);

    assert!(r0.ok && r1.ok);
    assert!(cache.current().is_none());
    assert_eq!(store.session_count(), 0);
    assert!(!r0.fetched_cover && !r1.fetched_cover);
}

#[test]
fn failed_observation_leaves_cache_untouched() {
    let mut cache = CacheState::empty();
    let mut store = StoreModel::new();

    run_tick(&mut cache, &mut store, &Ok(Some(game_a())), &ok_cover(), 0);
    let failed: Result<Option<Game>, FetchError> = Err(FetchError {
        message: String::from("timeout"),
    });
    let r1 = run_tick(&mut cache, &mut store, &failed, &ok_cover(), 30_000);

    assert!(!r1.ok);
    match cache.current() {
        Some(t) => assert_eq!(t.since, 0),
        None => panic!("a failed fetch must not clear the cache"),
    }
    assert_eq!(store.session_count(), 0);
}

#[test]
fn failed_cover_fetch_skips_the_session_write() {
    let mut cache = CacheState::empty();
    let mut store = StoreModel::new();
    let no_cover: Result<Vec<u8>, FetchError> = Err(FetchError {
        message: String::from("cdn unreachable"),
    });

    run_tick(&mut cache, &mut store, &Ok(Some(game_a())), &no_cover, 0);
    let r1 = run_tick(&mut cache, &mut store, &Ok(None), &no_cover, 30_000);

    assert!(!r1.ok);
    assert!(r1.fetched_cover);
    assert!(!r1.wrote_session);
    assert_eq!(store.session_count(), 0);
    assert!(cache.current().is_none());
}

#[test]
fn decide_matches_each_case() {
    let a = Some(game_a());
    let none_game: Option<Game> = None;
    assert!(matches!(decide(&None, &none_game, 5), Action::Idle));
    assert!(matches!(decide(&None, &a, 5), Action::Open(_, 5)));

    let plan = plan_tick(&None, &a, 7);
    let held = plan.new_state;
    assert!(matches!(decide(&held, &a, 40), Action::Continue));
    let b = Some(game_b());
    assert!(matches!(decide(&held, &b, 40), Action::Switch(_, 40)));
    match decide(&held, &none_game, 40) {
        Action::Close(g, range) => {
            assert_eq!(g.id().as_str(), "427520");
            assert_eq!(range.start, 7);
            assert_eq!(range.end, 40);
        },
        _ => panic!("expected a close"),
    }
}

#[test]
fn identity_is_compared_by_id_not_name() {
    let mut cache = CacheState::empty();
    let mut store = StoreModel::new();

    run_tick(&mut cache, &mut store, &Ok(Some(game_a())), &ok_cover(), 0);
    let renamed = Game::new(String::from("Factorio: Space Age"), String::from("427520"));
    let r1 = run_tick(&mut cache, &mut store, &Ok(Some(renamed)), &ok_cover(), 30_000);

    assert!(r1.ok);
    assert_eq!(store.session_count(), 0);
    match cache.current() {
        Some(t) => {
            assert_eq!(t.since, 0, "a renamed game with the same id must not restart tracking");
            assert_eq!(t.game.name().as_str(), "Factorio");
        },
        None => panic!("expected the game to still be tracked"),
    }
}

#[test]
fn interval_is_thirty_seconds() {
    assert_eq!(poll_interval_seconds(), 30);
}
