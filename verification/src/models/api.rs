//! Request and response bodies of the cloud API.
use vstd::prelude::*;

verus! {

/// A user's settings as the cloud API stores them. Holds secrets: keep it
/// out of logs.
#[derive(Debug, Clone)]
pub struct UserConfig {
    pub twitch_client_id: String,
    pub twitch_client_secret: String,
    pub twitch_channel: Option<String>,
    pub twitch_channels: Vec<String>,
    pub twitch_bot_username: Option<String>,
    pub twitch_irc_oauth_token: Option<String>,
    pub twitch_user_access_token: Option<String>,
    pub twitch_refresh_token: Option<String>,
    pub public_twitch_avatar_enabled: bool,
}

impl UserConfig {
    /// Whether every text is empty, every optional value absent and the
    /// avatar switch off.
    pub open spec fn is_blank(&self) -> bool {
        &&& self.twitch_client_id@.len() == 0
        &&& self.twitch_client_secret@.len() == 0
        &&& self.twitch_channel is None
        &&& self.twitch_channels@.len() == 0
        &&& self.twitch_bot_username is None
        &&& self.twitch_irc_oauth_token is None
        &&& self.twitch_user_access_token is None
        &&& self.twitch_refresh_token is None
        &&& !self.public_twitch_avatar_enabled
    }
}

impl Default for UserConfig {
    /// The blank configuration.
    fn default() -> (r: UserConfig)
        ensures
            r.is_blank(),
    {
        UserConfig {
            twitch_client_id: String::new(),
            twitch_client_secret: String::new(),
            twitch_channel: None,
            twitch_channels: Vec::new(),
            twitch_bot_username: None,
            twitch_irc_oauth_token: None,
            twitch_user_access_token: None,
            twitch_refresh_token: None,
            public_twitch_avatar_enabled: false,
        }
    }
}

/// Asks the API to register a configuration.
#[derive(Debug, Clone)]
pub struct RegisterRequest {
    pub config: UserConfig,
}

/// The identifier the API gave the registered user.
#[derive(Debug, Clone)]
pub struct RegisterResponse {
    pub user_id: String,
}

/// Asks the API for a new account with its first configuration.
#[derive(Debug, Clone)]
pub struct AuthRegisterRequest {
    pub username: String,
    pub password: String,
    pub config: UserConfig,
}

/// The token of a newly made account.
#[derive(Debug, Clone)]
pub struct AuthRegisterResponse {
    pub access_token: String,
}

/// Asks the API to log a user in.
#[derive(Debug, Clone)]
pub struct AuthLoginRequest {
    pub username: String,
    pub password: String,
}

/// The token of a logged-in user.
#[derive(Debug, Clone)]
pub struct AuthLoginResponse {
    pub access_token: String,
}

/// Asks the API to watch one more channel.
#[derive(Debug, Clone)]
pub struct ChannelAddRequest {
    pub login: String,
}

/// The channels the API watches for the user.
#[derive(Debug, Clone)]
pub struct ChannelsResponse {
    pub channels: Vec<String>,
}

/// Whether a watched channel is live.
#[derive(Debug, Clone)]
pub struct ChannelStatus {
    pub login: String,
    pub is_live: bool,
}

/// Asks the API for a new overlay template.
#[derive(Debug, Clone)]
pub struct TemplateCreateRequest {
    pub name: String,
}

/// Asks the API to copy a template under a new name.
#[derive(Debug, Clone)]
pub struct TemplateDuplicateRequest {
    pub new_name: String,
}

/// Asks the API for a new version of a template, empty or copied from another version.
#[derive(Debug, Clone)]
pub struct TemplateVersionCreateRequest {
    pub new_version: String,
    pub source_version: Option<String>,
}

/// Asks the API to copy a version of a template.
#[derive(Debug, Clone)]
pub struct TemplateVersionDuplicateRequest {
    pub new_version: String,
}

/// The three files of a template version, as they are to be saved.
#[derive(Debug, Clone)]
pub struct TemplateVersionUpdateRequest {
    pub index_html: String,
    pub style_css: String,
    pub overlay_js: String,
}

/// One version of a template, without its files.
#[derive(Debug, Clone)]
pub struct TemplateVersionSummary {
    pub version: String,
    pub is_published: bool,
    pub updated_at: String,
}

/// A template in the list of templates.
#[derive(Debug, Clone)]
pub struct TemplateListItem {
    pub id: String,
    pub name: String,
    pub updated_at: String,
    pub versions: Vec<TemplateVersionSummary>,
}

/// The user's templates.
#[derive(Debug, Clone)]
pub struct TemplatesListResponse {
    pub templates: Vec<TemplateListItem>,
}

/// One template with its versions.
#[derive(Debug, Clone)]
pub struct TemplateDetailResponse {
    pub id: String,
    pub name: String,
    pub updated_at: String,
    pub versions: Vec<TemplateVersionSummary>,
}

/// One version of a template with its three files.
#[derive(Debug, Clone)]
pub struct TemplateVersionResponse {
    pub template_id: String,
    pub version: String,
    pub is_published: bool,
    pub updated_at: String,
    pub index_html: String,
    pub style_css: String,
    pub overlay_js: String,
}

} // verus!
