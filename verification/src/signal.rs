//! The external-signal side of a tick: the request the poller issues, the
//! observation extracted from the response, and the startup configuration
//! check. The network round trips themselves live with the caller; the
//! computations around them stand here.

use vstd::prelude::*;

use crate::game::Game;

verus! {

/// A failed network round trip, as reported to the host: a transport or
/// parse failure, carried as text.
pub struct FetchError {
    pub message: String,
}

/// The observation extracted from one player summary: a game is reported
/// only when the response carries both the game's id and its display
/// name; any partial answer means "not playing".
pub fn observation_from_fields(name: Option<String>, id: Option<String>) -> (r: Option<Game>)
    ensures
        r is Some <==> (name is Some && id is Some),
        r matches Some(g) ==> (name matches Some(n) && id matches Some(i) && g@.name == n@
            && g@.id == i@),
{
    match (name, id) {
        (Some(n), Some(i)) => Some(Game::new(n, i)),
        _ => None,
    }
}

/// The player-summaries request: the credential and the observed account,
/// interpolated into the query string.
pub fn summaries_request_url(api_key: &String, user_steam_id: &String) -> (r: String)
    ensures
        r@ == "https://api.steampowered.com/ISteamUser/GetPlayerSummaries/v0002/?key="@
            + api_key@ + "&steamids="@ + user_steam_id@,
{
    let mut out = String::new();
    out.append("https://api.steampowered.com/ISteamUser/GetPlayerSummaries/v0002/?key=");
    out.append(api_key.as_str());
    out.append("&steamids=");
    out.append(user_steam_id.as_str());
    proof {
        assert(out@ =~= "https://api.steampowered.com/ISteamUser/GetPlayerSummaries/v0002/?key="@
            + api_key@ + "&steamids="@ + user_steam_id@);
    }
    out
}

/// Where a game's header image is fetched from, by game id.
pub fn cover_request_url(game_id: &String) -> (r: String)
    ensures
        r@ == "https://cdn.cloudflare.steamstatic.com/steam/apps/"@ + game_id@ + "/header.jpg"@,
{
    let mut out = String::new();
    out.append("https://cdn.cloudflare.steamstatic.com/steam/apps/");
    out.append(game_id.as_str());
    out.append("/header.jpg");
    proof {
        assert(out@ =~= "https://cdn.cloudflare.steamstatic.com/steam/apps/"@ + game_id@
            + "/header.jpg"@);
    }
    out
}

/// Whether a configuration can start an instance: both the credential and
/// the identity to poll must be present. A failing check is fatal at
/// startup.
pub fn config_is_usable(api_key: &String, user_steam_id: &String) -> (r: bool)
    ensures
        r == (api_key@.len() > 0 && user_steam_id@.len() > 0),
{
    !api_key.as_str().is_empty() && !user_steam_id.as_str().is_empty()
}

} // verus!
