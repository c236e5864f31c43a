//! What the client keeps between runs.
use vstd::prelude::*;
use crate::models::api::UserConfig;
use crate::text::{is_blank, trim};

verus! {

/// State of the client on this machine.
#[derive(Debug, Clone)]
pub struct LocalClientState {
    pub api_base_url: String,
    pub username: Option<String>,
    pub access_token: Option<String>,
    /// Held in memory only: the API keeps the configuration.
    pub user_cfg: UserConfig,
}

/// Name of the environment variable that gives the API address for a run.
pub const API_BASE_URL_VARIABLE: &'static str = "TWITCHDESK_API_BASE_URL";

/// The API address used when nothing else is configured.
pub const DEFAULT_API_BASE_URL: &'static str = "https://api.twitchdesk.com";

/// The default API address as a text.
pub open spec fn default_api_base_url() -> Seq<char> {
    DEFAULT_API_BASE_URL@
}

/// The API address to start with: the value configured for this run unless
/// it is blank, else the value fixed when the program was built, else the
/// default address.
pub open spec fn initial_api_base_url(
    configured: Option<Seq<char>>,
    built_in: Option<Seq<char>>,
) -> Seq<char> {
    match configured {
        Some(v) if trim(v).len() > 0 => v,
        _ => match built_in {
            Some(b) => b,
            None => default_api_base_url(),
        },
    }
}

/// Chooses the API address to start with.
pub fn resolve_api_base_url(configured: Option<&str>, built_in: Option<&str>) -> (r: String)
    ensures
        r@ == initial_api_base_url(
            match configured {
                Some(v) => Some(v@),
                None => None,
            },
            match built_in {
                Some(b) => Some(b@),
                None => None,
            },
        ),
{
    if let Some(v) = configured {
        if !is_blank(v) {
            return v.to_owned();
        }
    }
    match built_in {
        Some(b) => b.to_owned(),
        None => DEFAULT_API_BASE_URL.to_owned(),
    }
}

impl LocalClientState {
    /// The state of a client that has never logged in: the chosen API
    /// address, nobody logged in and a blank configuration.
    pub fn initial(configured: Option<&str>, built_in: Option<&str>) -> (r: LocalClientState)
        ensures
            r.api_base_url@ == initial_api_base_url(
                match configured {
                    Some(v) => Some(v@),
                    None => None,
                },
                match built_in {
                    Some(b) => Some(b@),
                    None => None,
                },
            ),
            r.username is None,
            r.access_token is None,
            r.user_cfg.is_blank(),
    {
        LocalClientState {
            api_base_url: resolve_api_base_url(configured, built_in),
            username: None,
            access_token: None,
            user_cfg: UserConfig::default(),
        }
    }
}

} // verus!
