use heat_exchanger::config::{
    Config, ConfigError, DockerConnectMode, Platform, Source, DEFAULT_CONFIG_PATH,
    DEFAULT_STATE_PATH,
};
use heat_exchanger::container::{Container, UpdateAction};
use std::collections::BTreeMap;
use std::time::Duration;

fn file(key: &str, state_directory: &str) -> Config {
    Config::new(
        String::from(key),
        Duration::from_secs(600),
        vec![
            Container::new(String::from("csgo"), 740, UpdateAction::DockerRestart, BTreeMap::new()),
            Container::new(String::from("tf2"), 232250, UpdateAction::DockerPull, BTreeMap::new()),
        ],
        String::from(state_directory),
        DockerConnectMode::Http,
    )
}

fn text(s: &str) -> Option<String> {
    Some(String::from(s))
}

#[test]
fn defaults_are_as_documented() {
    assert_eq!(DEFAULT_CONFIG_PATH, "./config.yml");
    assert_eq!(DEFAULT_STATE_PATH, "./state");
}

#[test]
fn argument_comes_first() {
    assert_eq!(
        Config::locate(text("/etc/a.yml"), text("/etc/b.yml")),
        (String::from("/etc/a.yml"), Source::Arguments)
    );
    assert_eq!(Config::locate(text("a.yml"), None), (String::from("a.yml"), Source::Arguments));
}

#[test]
fn environment_comes_second() {
    assert_eq!(
        Config::locate(None, text("/etc/b.yml")),
        (String::from("/etc/b.yml"), Source::Environment)
    );
}

#[test]
fn default_path_comes_last() {
    assert_eq!(Config::locate(None, None), (String::from("./config.yml"), Source::Default));
}

#[test]
fn consume_hands_out_every_part() {
    let (containers, key, interval, directory, mode) = file("KEY", "/state").consume();
    assert_eq!(containers.len(), 2);
    assert_eq!(containers[0].name(), "csgo");
    assert_eq!(containers[0].appid(), 740);
    assert_eq!(containers[0].action(), UpdateAction::DockerRestart);
    assert_eq!(containers[1].name(), "tf2");
    assert_eq!(containers[1].appid(), 232250);
    assert_eq!(containers[1].action(), UpdateAction::DockerPull);
    assert_eq!(key, "KEY");
    assert_eq!(interval, Duration::from_secs(600));
    assert_eq!(directory, "/state");
    assert_eq!(mode, DockerConnectMode::Http);
}

#[test]
fn key_of_the_environment_overrides_the_file() {
    let (_, key, _, _, _) = Config::get(file("FILE", "/s"), text("ENV"), None).unwrap().consume();
    assert_eq!(key, "ENV");
}

#[test]
fn key_of_the_file_is_used_without_environment() {
    let (_, key, _, _, _) = Config::get(file("FILE", "/s"), None, None).unwrap().consume();
    assert_eq!(key, "FILE");
}

#[test]
fn key_of_the_environment_fills_in_for_an_empty_file_key() {
    let (_, key, _, _, _) = Config::get(file("", "/s"), text("ENV"), None).unwrap().consume();
    assert_eq!(key, "ENV");
}

#[test]
fn missing_key_is_an_error() {
    let r = Config::get(file("", "/s"), None, text("/env"));
    assert_eq!(r.err(), Some(ConfigError::MissingApiKey));
}

#[test]
fn empty_key_of_the_environment_still_overrides() {
    let (_, key, _, _, _) = Config::get(file("FILE", "/s"), text(""), None).unwrap().consume();
    assert_eq!(key, "");
}

#[test]
fn state_directory_of_the_file_comes_first() {
    let (_, _, _, dir, _) = Config::get(file("K", "/file"), None, text("/env")).unwrap().consume();
    assert_eq!(dir, "/file");
}

#[test]
fn state_directory_of_the_environment_comes_second() {
    let (_, _, _, dir, _) = Config::get(file("K", ""), None, text("/env")).unwrap().consume();
    assert_eq!(dir, "/env");
}

#[test]
fn default_state_directory_comes_last() {
    let (_, _, _, dir, _) = Config::get(file("K", ""), None, None).unwrap().consume();
    assert_eq!(dir, "./state");
}

#[test]
fn get_keeps_the_other_settings() {
    let (containers, _, interval, _, mode) =
        Config::get(file("K", ""), text("E"), text("/env")).unwrap().consume();
    assert_eq!(containers.len(), 2);
    assert_eq!(containers[0].name(), "csgo");
    assert_eq!(containers[1].name(), "tf2");
    assert_eq!(interval, Duration::from_secs(600));
    assert_eq!(mode, DockerConnectMode::Http);
}

#[test]
fn error_message_names_both_places() {
    assert_eq!(
        ConfigError::MissingApiKey.message(),
        "Steam API key not found in configuration file or environment"
    );
}

#[test]
fn default_mode_is_the_local_transport() {
    assert_eq!(DockerConnectMode::default_on(Platform::Unix), DockerConnectMode::UnixSocket);
    assert_eq!(DockerConnectMode::default_on(Platform::Windows), DockerConnectMode::WindowsPipe);
}

#[test]
fn local_transports_exist_on_their_platform_only() {
    assert!(DockerConnectMode::UnixSocket.available_on(Platform::Unix));
    assert!(!DockerConnectMode::UnixSocket.available_on(Platform::Windows));
    assert!(DockerConnectMode::WindowsPipe.available_on(Platform::Windows));
    assert!(!DockerConnectMode::WindowsPipe.available_on(Platform::Unix));
}

#[test]
fn network_transports_exist_everywhere() {
    for platform in [Platform::Unix, Platform::Windows] {
        assert!(DockerConnectMode::Http.available_on(platform));
        assert!(DockerConnectMode::SSL.available_on(platform));
        assert!(DockerConnectMode::default_on(platform).available_on(platform));
    }
}
