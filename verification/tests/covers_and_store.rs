//! Tests for the cover guard, the cover read path, the session store
//! model, and the query and request helpers.

use steam_sessions::{
    CoverRecord, FetchError, Game, SessionRecord, StoreModel, TimeRange, config_is_usable,
    cover_request_url, decode_cover_data, ensure_cover, make_cover_record,
    observation_from_fields, session_key, summaries_request_url,
};

fn game(id: &str, name: &str) -> Game {
    Game::new(String::from(name), String::from(id))
}

#[test]
fn cover_fetch_is_idempotent() {
    let mut store = StoreModel::new();
    let g = game("427520", "Factorio");
    let bytes: Result<Vec<u8>, FetchError> = Ok(vec![1u8, 2, 3]);

    let first = ensure_cover(&mut store, &g, &bytes);
    assert!(first.fetched && first.wrote && first.ok);

    let second = ensure_cover(&mut store, &g, &bytes);
    assert!(!second.fetched && !second.wrote && second.ok);

    let served = store
        .cover_response(&String::from("427520"))
        .expect("the stored cover must decode");
    assert_eq!(served, vec![1u8, 2, 3]);
}

#[test]
fn failed_cover_fetch_is_retried_not_cached() {
    let mut store = StoreModel::new();
    let g = game("427520", "Factorio");
    let failed: Result<Vec<u8>, FetchError> = Err(FetchError {
        message: String::from("cdn unreachable"),
    });

    let first = ensure_cover(&mut store, &g, &failed);
    assert!(first.fetched && !first.wrote && !first.ok);
    assert!(store.cover_response(&String::from("427520")).is_none());

    let retry = ensure_cover(&mut store, &g, &Ok(vec![9u8]));
    assert!(retry.fetched && retry.wrote && retry.ok);
}

#[test]
fn cover_record_encodes_base64() {
    let bytes = vec![b'h', b'e', b'l', b'l', b'o'];
    let rec = make_cover_record(&String::from("42"), &bytes);
    assert_eq!(rec.game_id.as_str(), "42");
    assert_eq!(rec.data.as_str(), "aGVsbG8=");
    let back = decode_cover_data(&rec.data).expect("an encoding must decode");
    assert_eq!(back, bytes);
    assert!(decode_cover_data(&String::from("not base64!!")).is_none());
}

#[test]
fn missing_cover_serves_nothing() {
    let mut store = StoreModel::new();
    store.insert_cover(CoverRecord {
        game_id: String::from("1"),
        data: String::from("AA=="),
    });
    assert!(store.cover_response(&String::from("2")).is_none());
}

#[test]
fn duplicate_session_keys_are_not_stored_twice() {
    let mut store = StoreModel::new();
    let rec = || SessionRecord {
        key: session_key(&String::from("427520"), 0, 60_000),
        game: game("427520", "Factorio"),
        start: 0,
        end: 60_000,
    };
    assert!(store.insert_session(rec()));
    assert!(!store.insert_session(rec()));
    assert_eq!(store.session_count(), 1);
}

#[test]
fn compressed_events_cover_the_overlapping_sessions_in_order() {
    let mut store = StoreModel::new();
    for (id, name, start, end) in
        [("1", "First", 0u64, 100u64), ("2", "Second", 200, 300), ("3", "Third", 400, 500)]
    {
        let inserted = store.insert_session(SessionRecord {
            key: session_key(&String::from(id), start, end),
            game: game(id, name),
            start,
            end,
        });
        assert!(inserted);
    }

    let hits = store.get_compressed_events(&TimeRange { start: 50, end: 250 });
    assert_eq!(hits.len(), 2);
    assert_eq!(hits[0].title.as_str(), "First");
    assert_eq!(hits[1].title.as_str(), "Second");
    assert_eq!(hits[1].start, 200);
    assert_eq!(hits[1].end, 300);

    let touching = store.get_compressed_events(&TimeRange { start: 100, end: 200 });
    assert!(touching.is_empty());
}

#[test]
fn session_keys_carry_id_and_range() {
    let key = session_key(&String::from("427520"), 5, 10);
    assert_eq!(key.as_str(), "427520@5-10");
}

#[test]
fn observations_need_both_fields() {
    let both = observation_from_fields(
        Some(String::from("Factorio")),
        Some(String::from("427520")),
    );
    match both {
        Some(g) => {
            assert_eq!(g.name().as_str(), "Factorio");
            assert_eq!(g.id().as_str(), "427520");
        },
        None => panic!("both fields present must yield a game"),
    }
    assert!(observation_from_fields(Some(String::from("Factorio")), None).is_none());
    assert!(observation_from_fields(None, Some(String::from("427520"))).is_none());
    assert!(observation_from_fields(None, None).is_none());
}

#[test]
fn request_urls_interpolate_their_arguments() {
    let url = summaries_request_url(&String::from("KEY"), &String::from("765611"));
    assert_eq!(
        url.as_str(),
        "https://api.steampowered.com/ISteamUser/GetPlayerSummaries/v0002/?key=KEY&steamids=765611"
    );
    let cover = cover_request_url(&String::from("427520"));
    assert_eq!(
        cover.as_str(),
        "https://cdn.cloudflare.steamstatic.com/steam/apps/427520/header.jpg"
    );
}

#[test]
fn configuration_needs_both_credentials() {
    assert!(config_is_usable(&String::from("k"), &String::from("id")));
    assert!(!config_is_usable(&String::from(""), &String::from("id")));
    assert!(!config_is_usable(&String::from("k"), &String::from("")));
}
