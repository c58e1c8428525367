use heat_exchanger::steam::{get_game_version, manifest_url, ResolveError, GAME_MANIFEST_BASE_URL};

#[test]
fn manifest_url_names_key_and_application() {
    assert_eq!(
        manifest_url("SECRET", 740),
        "http://api.steampowered.com/ISteamUserStats/GetSchemaForGame/v2/?key=SECRET&appid=740&format=json"
    );
}

#[test]
fn manifest_url_starts_at_the_endpoint() {
    let url = manifest_url("k", 0);
    assert!(url.starts_with(GAME_MANIFEST_BASE_URL));
    assert_eq!(&url[GAME_MANIFEST_BASE_URL.len()..], "/?key=k&appid=0&format=json");
}

#[test]
fn manifest_url_does_not_escape() {
    assert_eq!(
        manifest_url("a&b c", u64::MAX),
        "http://api.steampowered.com/ISteamUserStats/GetSchemaForGame/v2/?key=a&b c&appid=18446744073709551615&format=json"
    );
}

#[test]
fn version_is_read_from_a_successful_answer() {
    assert_eq!(get_game_version(Some(200), Some("5472317")), Ok(5472317));
    assert_eq!(get_game_version(Some(201), Some("1")), Ok(1));
    assert_eq!(get_game_version(Some(202), Some("0")), Ok(0));
}

#[test]
fn version_zero_is_a_version() {
    assert_eq!(get_game_version(Some(200), Some("0")), Ok(0));
}

#[test]
fn refused_key_is_unauthorized() {
    assert_eq!(get_game_version(Some(403), None), Err(ResolveError::Unauthorized));
    assert_eq!(get_game_version(Some(403), Some("12")), Err(ResolveError::Unauthorized));
}

#[test]
fn no_answer_is_transient() {
    assert_eq!(get_game_version(None, None), Err(ResolveError::Transient));
    assert_eq!(get_game_version(None, Some("12")), Err(ResolveError::Transient));
}

#[test]
fn other_statuses_are_transient() {
    for status in [100u16, 199, 203, 204, 301, 400, 401, 404, 429, 500, 503] {
        assert_eq!(get_game_version(Some(status), Some("12")), Err(ResolveError::Transient));
    }
}

#[test]
fn answer_without_version_is_not_found() {
    assert_eq!(get_game_version(Some(200), None), Err(ResolveError::NotFound));
}

#[test]
fn answer_with_unreadable_version_is_not_found() {
    assert_eq!(get_game_version(Some(200), Some("")), Err(ResolveError::NotFound));
    assert_eq!(get_game_version(Some(200), Some("v12")), Err(ResolveError::NotFound));
    assert_eq!(get_game_version(Some(200), Some("1.2")), Err(ResolveError::NotFound));
    assert_eq!(
        get_game_version(Some(200), Some("18446744073709551616")),
        Err(ResolveError::NotFound)
    );
}
