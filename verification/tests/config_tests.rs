use aw_watcher_media_player::config::{any_filter_in, Cli, Config, Toml};

fn config_with(included: &[&str], excluded: &[&str]) -> Config {
    Config {
        host: "localhost".to_string(),
        port: 5600,
        poll_interval: 5,
        include_players: included.iter().map(|s| s.to_string()).collect(),
        exclude_players: excluded.iter().map(|s| s.to_string()).collect(),
    }
}

#[test]
fn include_filter_reports_matching_player() {
    let config = config_with(&["spotify"], &[]);
    assert!(config.report_player("Spotify Free"));
    assert!(!config.report_player("Firefox"));
}

#[test]
fn exclude_filter_suppresses_matching_player() {
    let config = config_with(&[], &["spotify"]);
    assert!(!config.report_player("Spotify Free"));
    assert!(config.report_player("Firefox"));
}

#[test]
fn include_filter_overrides_exclude_filter() {
    let config = config_with(&["spotify"], &["spotify"]);
    assert!(config.report_player("Spotify Free"));
    assert!(!config.report_player("Firefox"));
}

#[test]
fn no_filters_report_every_player() {
    let config = config_with(&[], &[]);
    assert!(config.report_player("Spotify Free"));
    assert!(config.report_player(""));
}

#[test]
fn command_line_wins_over_file() {
    let cli = Cli {
        config: None,
        host: Some("example.org".to_string()),
        port: None,
        poll_interval: Some(9),
        include_players: vec!["VLC".to_string()],
        exclude_players: vec![],
    };
    let file = Toml {
        port: 1234,
        host: "elsewhere".to_string(),
        poll_time: 2,
        include_players: vec!["Spotify".to_string()],
        exclude_players: vec!["FireFox".to_string()],
    };
    let config = Config::new(cli, file);
    assert_eq!(config.host, "example.org");
    assert_eq!(config.port, 1234);
    assert_eq!(config.poll_interval, 9);
    assert_eq!(config.include_players, vec!["vlc".to_string(), "spotify".to_string()]);
    assert_eq!(config.exclude_players, vec!["firefox".to_string()]);
}

#[test]
fn empty_file_gives_documented_defaults() {
    let file = Toml::default();
    assert_eq!(file.host, "localhost");
    assert_eq!(file.port, 5600);
    assert_eq!(file.poll_time, 5);
    assert!(file.include_players.is_empty());
    assert!(file.exclude_players.is_empty());
}

#[test]
fn filters_are_matched_against_the_name_as_given() {
    let config = config_with(&["spotify"], &["spotify"]);
    assert!(config.report_lowercase_player("spotify free"));
    assert!(!config.report_lowercase_player("Spotify Free"));
    assert!(!config.report_lowercase_player("firefox"));
    let config = config_with(&[], &["spotify", "vlc"]);
    assert!(!config.report_lowercase_player("spotify free"));
    assert!(!config.report_lowercase_player("my vlc"));
    assert!(config.report_lowercase_player("Spotify Free"));
    assert!(config.report_lowercase_player("firefox"));
    let config = config_with(&[], &[""]);
    assert!(!config.report_lowercase_player("anything"));
    let filters = vec!["spot".to_string(), "fox".to_string()];
    assert!(any_filter_in(&filters, "firefox"));
    assert!(!any_filter_in(&filters, "chrome"));
    assert!(!any_filter_in(&vec![], "chrome"));
}
