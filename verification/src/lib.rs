//! Reconstruction of continuous play sessions from periodic observations
//! of a "currently playing" signal, with a durable last-known-state cache
//! and an idempotent cover-asset store.

use vstd::prelude::*;

mod cache;
mod covers;
mod digits;
mod game;
mod guard;
mod signal;
mod store;
mod tick;
mod tracker;

pub use cache::CacheState;
pub use cache::cache_repr;
pub use cache::cache_repr_some;
pub use cache::lemma_cache_repr_injective;
pub use cache::lemma_repr_shape;
pub use covers::CoverRecord;
pub use covers::CoverRecordView;
pub use covers::b64_decode_of;
pub use covers::b64_of;
pub use covers::decode_cover_data;
pub use covers::make_cover_record;
pub use digits::dec_digits;
pub use digits::digit_char;
pub use digits::digit_run_end;
pub use digits::digit_val;
pub use digits::digits_val;
pub use digits::is_digit;
pub use digits::parse_u64;
pub use digits::push_dec;
pub use digits::u64_to_dec;
pub use game::Game;
pub use game::GameView;
pub use guard::EnsureReport;
pub use guard::covers_after_ensure;
pub use guard::ensure_cover;
pub use guard::ensure_fetches;
pub use guard::lemma_ensure_cover_idempotent;
pub use signal::FetchError;
pub use signal::config_is_usable;
pub use signal::cover_request_url;
pub use signal::observation_from_fields;
pub use signal::summaries_request_url;
pub use store::CompressedEvent;
pub use store::CompressedEventView;
pub use store::SessionRecord;
pub use store::SessionRecordView;
pub use store::StoreModel;
pub use store::StoreView;
pub use store::compressed_of;
pub use store::lemma_session_key_injective;
pub use store::session_key;
pub use store::session_key_spec;
pub use store::spans_overlap;
pub use store::spec_find_cover;
pub use store::spec_has_cover;
pub use store::spec_has_session;
pub use tick::TickPlan;
pub use tick::TickReport;
pub use tick::plan_tick;
pub use tick::run_tick;
pub use tracker::Action;
pub use tracker::ActionView;
pub use tracker::TimeRange;
pub use tracker::TrackedState;
pub use tracker::TrackedView;
pub use tracker::decide;
pub use tracker::decide_view;
pub use tracker::game_opt_view;
pub use tracker::lemma_continuation_is_noop;
pub use tracker::lemma_idle_is_stable;
pub use tracker::lemma_session_open_then_close;
pub use tracker::lemma_switch_discards_interrupted_session;
pub use tracker::mutates_cache;
pub use tracker::next_view;
pub use tracker::tracked_opt_view;

verus! {

/// Seconds between two consecutive polls of the external signal.
pub fn poll_interval_seconds() -> (r: u64)
    ensures
        r == 30,
{
    30
}

} // verus!
