//! The version source: which build of a game Steam currently publishes.
//!
//! The request itself is made by the caller. This module says where to ask
//! and how to read the answer.

use crate::text::{decimal, parse_decimal, parse_u64, push_decimal};
use vstd::prelude::*;
use vstd::string::StringExecFns;

verus! {

/// Endpoint that serves the manifest of a game.
pub const GAME_MANIFEST_BASE_URL: &'static str =
    "http://api.steampowered.com/ISteamUserStats/GetSchemaForGame/v2";

/// A published build of a game. Two versions are either the same or not;
/// no order between them is assumed.
pub type SteamVersion = u64;

/// Why the version source gave no version.
#[derive(Clone, Copy, Debug, PartialEq, Eq)]
pub enum ResolveError {
    /// The source answered, but its answer holds no version of the game.
    NotFound,
    /// The source refused the API key.
    Unauthorized,
    /// No answer, or an answer that reports a failure on the other side.
    Transient,
}

/// The address of the manifest of application `appid`, asked for with `key`.
pub open spec fn manifest_url_of(key: Seq<char>, appid: u64) -> Seq<char> {
    GAME_MANIFEST_BASE_URL@ + "/?key="@ + key + "&appid="@ + decimal(appid as nat)
        + "&format=json"@
}

/// The status of an answer that carries a manifest.
pub open spec fn is_success(status: u16) -> bool {
    status == 200 || status == 201 || status == 202
}

/// What an answer of the version source means. `status` is the HTTP status of
/// the answer, `None` where there was no answer. `version` is the text of
/// the `gameVersion` entry of the `game` object in the answer's body, `None`
/// where the body holds no such entry.
pub open spec fn game_version_of(status: Option<u16>, version: Option<Seq<char>>) -> Result<
    SteamVersion,
    ResolveError,
> {
    match status {
        None => Err(ResolveError::Transient),
        Some(code) => if code == 403 {
            Err(ResolveError::Unauthorized)
        } else if !is_success(code) {
            Err(ResolveError::Transient)
        } else {
            match version {
                None => Err(ResolveError::NotFound),
                Some(text) => match parse_u64(text) {
                    Some(v) => Ok(v),
                    None => Err(ResolveError::NotFound),
                },
            }
        },
    }
}

/// The view of a text that may be absent.
pub open spec fn text_view(text: Option<&str>) -> Option<Seq<char>> {
    match text {
        Some(t) => Some(t@),
        None => None,
    }
}

/// Builds the address to ask for the manifest of application `appid`.
/// Neither `key` nor the number is escaped.
pub fn manifest_url(key: &str, appid: u64) -> (url: String)
    ensures
        url@ == manifest_url_of(key@, appid),
{
    let mut url = String::from_str(GAME_MANIFEST_BASE_URL);
    url.append("/?key=");
    url.append(key);
    url.append("&appid=");
    push_decimal(&mut url, appid);
    url.append("&format=json");
    url
}

/// Reads the version of a game out of the version source's answer; see
/// [`game_version_of`] for the arguments.
pub fn get_game_version(status: Option<u16>, version: Option<&str>) -> (r: Result<
    SteamVersion,
    ResolveError,
>)
    ensures
        r == game_version_of(status, text_view(version)),
{
    let code: u16 = match status {
        Some(code) => code,
        None => {
            return Err(ResolveError::Transient);
        },
    };
    if code == 403 {
        return Err(ResolveError::Unauthorized);
    }
    if !(code == 200 || code == 201 || code == 202) {
        return Err(ResolveError::Transient);
    }
    match version {
        None => Err(ResolveError::NotFound),
        Some(text) => match parse_decimal(text) {
            Some(v) => Ok(v),
            None => Err(ResolveError::NotFound),
        },
    }
}

} // verus!
