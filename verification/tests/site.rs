use clubsite::config::Config;
use clubsite::metrix::{Player, Players};
use clubsite::pages::next_content_version;

#[test]
fn config_defaults_analytics_to_empty() {
    assert_eq!(Config::from_setting(Some("UA-123")).analytics, "UA-123");
    assert_eq!(Config::from_setting(None).analytics, "");
}

#[test]
fn next_content_version_counts_up() {
    assert_eq!(next_content_version(None), 1);
    assert_eq!(next_content_version(Some(1)), 2);
    assert_eq!(next_content_version(Some(41)), 42);
}

#[test]
fn players_keeps_standings() {
    let p = Players {
        players: vec![Player {
            number: "1".to_string(),
            name: Some("Ann".to_string()),
            rating: None,
            last_number: Some("3".to_string()),
        }],
        errors: vec!["none".to_string()],
    };
    let players = p.into_players();
    assert_eq!(players.len(), 1);
    assert_eq!(players[0].number, "1");
    assert_eq!(players[0].name.as_deref(), Some("Ann"));
    assert_eq!(players[0].last_number.as_deref(), Some("3"));
}
