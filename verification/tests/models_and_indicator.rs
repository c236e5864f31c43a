use twitchdesk_desktop::models::local::resolve_api_base_url;
use twitchdesk_desktop::models::{
    AuthLoginRequest, ChannelStatus, LocalClientState, RegisterRequest, TemplateListItem,
    TemplateVersionSummary, UserConfig,
};
use twitchdesk_desktop::update::indicator::{CheckReport, UpdateIndicator};

#[test]
fn default_user_config_is_blank() {
    let cfg = UserConfig::default();
    assert!(cfg.twitch_client_id.is_empty());
    assert!(cfg.twitch_client_secret.is_empty());
    assert!(cfg.twitch_channel.is_none());
    assert!(cfg.twitch_channels.is_empty());
    assert!(cfg.twitch_bot_username.is_none());
    assert!(cfg.twitch_irc_oauth_token.is_none());
    assert!(cfg.twitch_user_access_token.is_none());
    assert!(cfg.twitch_refresh_token.is_none());
    assert!(!cfg.public_twitch_avatar_enabled);
}

#[test]
fn api_address_falls_back_in_order() {
    assert_eq!(resolve_api_base_url(Some("http://localhost:8080"), Some("https://built")), "http://localhost:8080");
    assert_eq!(resolve_api_base_url(Some(" http://x "), None), " http://x ");
    assert_eq!(resolve_api_base_url(Some("   "), Some("https://built")), "https://built");
    assert_eq!(resolve_api_base_url(Some(""), None), "https://api.twitchdesk.com");
    assert_eq!(resolve_api_base_url(None, Some("https://built")), "https://built");
    assert_eq!(resolve_api_base_url(None, None), "https://api.twitchdesk.com");
}

#[test]
fn initial_state_has_nobody_logged_in() {
    let state = LocalClientState::initial(None, None);
    assert_eq!(state.api_base_url, "https://api.twitchdesk.com");
    assert!(state.username.is_none());
    assert!(state.access_token.is_none());
    assert!(state.user_cfg.twitch_client_id.is_empty());
}

#[test]
fn records_hold_their_fields() {
    let login = AuthLoginRequest { username: "u".to_string(), password: "p".to_string() };
    assert_eq!(login.clone().username, "u");
    let request = RegisterRequest { config: UserConfig::default() };
    assert!(request.config.twitch_channels.is_empty());
    let status = ChannelStatus { login: "chan".to_string(), is_live: true };
    assert!(status.is_live);
    let item = TemplateListItem {
        id: "1".to_string(),
        name: "n".to_string(),
        updated_at: "t".to_string(),
        versions: vec![TemplateVersionSummary {
            version: "v1".to_string(),
            is_published: false,
            updated_at: "t".to_string(),
        }],
    };
    assert_eq!(item.versions.len(), 1);
}

#[test]
fn indicator_shows_a_newer_version() {
    let mut indicator = UpdateIndicator::new();
    assert_eq!(indicator.label(), None);
    assert!(indicator.schedule_update_check(false));
    assert!(indicator.check_running);
    assert!(!indicator.schedule_update_check(false));
    indicator.tick_update_check(None);
    assert!(indicator.check_running);
    indicator.tick_update_check(Some(CheckReport::Newer("1.3.0".to_string())));
    assert!(!indicator.check_running);
    assert_eq!(indicator.update_available, Some("1.3.0".to_string()));
    assert_eq!(indicator.label(), Some("Update available: v1.3.0".to_string()));
}

#[test]
fn indicator_keeps_a_failure_until_it_is_retried() {
    let mut indicator = UpdateIndicator::new();
    assert!(indicator.schedule_update_check(false));
    indicator.tick_update_check(Some(CheckReport::Failed("timed out".to_string())));
    assert_eq!(indicator.update_last_error, Some("timed out".to_string()));
    assert_eq!(indicator.label(), Some("Update check failed".to_string()));
    assert!(indicator.retry(false));
    assert_eq!(indicator.update_last_error, None);
    assert_eq!(indicator.label(), None);
    indicator.tick_update_check(Some(CheckReport::Current));
    assert_eq!(indicator.label(), None);
    assert!(!indicator.check_running);
}

#[test]
fn indicator_shows_the_version_rather_than_a_later_failure() {
    let mut indicator = UpdateIndicator::new();
    indicator.schedule_update_check(false);
    indicator.tick_update_check(Some(CheckReport::Newer("2.0.0".to_string())));
    indicator.schedule_update_check(false);
    indicator.tick_update_check(Some(CheckReport::Failed("offline".to_string())));
    assert_eq!(indicator.update_available, Some("2.0.0".to_string()));
    assert_eq!(indicator.update_last_error, Some("offline".to_string()));
    assert_eq!(indicator.label(), Some("Update available: v2.0.0".to_string()));
}

#[test]
fn indicator_starts_nothing_in_a_development_build() {
    let mut indicator = UpdateIndicator::new();
    assert!(!indicator.schedule_update_check(true));
    assert!(!indicator.check_running);
    indicator.tick_update_check(Some(CheckReport::Newer("9.9.9".to_string())));
    assert_eq!(indicator.update_available, None);
}
