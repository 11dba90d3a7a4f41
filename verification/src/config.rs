//! The configuration of the watcher: credentials for the registries, the
//! notification services to use, and the time between two polls.

use crate::models::{clone_text, AppSettings};
use crate::wire::{header_views, Header, HeaderView};
use vstd::prelude::*;
use vstd::string::*;

verus! {

/// The time between two polls, in seconds, where none is configured.
pub const DEFAULT_CHECK_INTERVAL: i64 = 3600;

/// What the watcher is configured with.
#[derive(Debug)]
pub struct Config {
    pub github_token: Option<String>,
    pub docker_username: Option<String>,
    pub docker_password: Option<String>,
    pub docker_token: Option<String>,
    pub ntfy_url: Option<String>,
    pub gotify_url: Option<String>,
    pub gotify_token: Option<String>,
    pub discord_webhook_url: Option<String>,
    pub slack_webhook_url: Option<String>,
    /// The Basic credential for the ntfy server.
    pub auth: String,
    /// The time between two polls, in seconds.
    pub timeout: i64,
}

/// The mathematical view of [`Config`].
pub ghost struct ConfigView {
    pub github_token: Option<Seq<char>>,
    pub docker_username: Option<Seq<char>>,
    pub docker_password: Option<Seq<char>>,
    pub docker_token: Option<Seq<char>>,
    pub ntfy_url: Option<Seq<char>>,
    pub gotify_url: Option<Seq<char>>,
    pub gotify_token: Option<Seq<char>>,
    pub discord_webhook_url: Option<Seq<char>>,
    pub slack_webhook_url: Option<Seq<char>>,
    pub auth: Seq<char>,
    pub timeout: i64,
}

impl View for Config {
    type V = ConfigView;

    open spec fn view(&self) -> ConfigView {
        ConfigView {
            github_token: self.github_token.deep_view(),
            docker_username: self.docker_username.deep_view(),
            docker_password: self.docker_password.deep_view(),
            docker_token: self.docker_token.deep_view(),
            ntfy_url: self.ntfy_url.deep_view(),
            gotify_url: self.gotify_url.deep_view(),
            gotify_token: self.gotify_token.deep_view(),
            discord_webhook_url: self.discord_webhook_url.deep_view(),
            slack_webhook_url: self.slack_webhook_url.deep_view(),
            auth: self.auth@,
            timeout: self.timeout,
        }
    }
}

impl ConfigView {
    /// Whether at least one notification service is named.
    pub open spec fn names_a_service(self) -> bool {
        self.ntfy_url is Some || self.gotify_url is Some || self.discord_webhook_url is Some
            || self.slack_webhook_url is Some
    }

    /// Whether the watcher cannot start yet: the credential is missing, or
    /// no notification service is named.
    pub open spec fn incomplete(self) -> bool {
        self.auth.len() == 0 || !self.names_a_service()
    }
}

/// The configuration that the stored settings stand for, together with the
/// Docker Hub token obtained for them and the credential read for ntfy.
pub open spec fn config_of(
    settings: AppSettings,
    docker_token: Option<Seq<char>>,
    auth: Seq<char>,
) -> ConfigView {
    ConfigView {
        github_token: settings.github_token.deep_view(),
        docker_username: settings.docker_username.deep_view(),
        docker_password: settings.docker_password.deep_view(),
        docker_token,
        ntfy_url: settings.ntfy_url.deep_view(),
        gotify_url: settings.gotify_url.deep_view(),
        gotify_token: settings.gotify_token.deep_view(),
        discord_webhook_url: settings.discord_webhook_url.deep_view(),
        slack_webhook_url: settings.slack_webhook_url.deep_view(),
        auth,
        timeout: match settings.check_interval {
            Some(seconds) => seconds,
            None => DEFAULT_CHECK_INTERVAL,
        },
    }
}

/// The one header that carries a credential.
pub open spec fn authorization(scheme: Seq<char>, token: Option<Seq<char>>) -> Seq<HeaderView> {
    match token {
        Some(token) => seq![HeaderView { name: "Authorization"@, value: scheme + token }],
        None => Seq::empty(),
    }
}

fn authorization_headers(scheme: &str, token: &Option<String>) -> (headers: Vec<Header>)
    ensures
        header_views(headers@) == authorization(scheme@, token.deep_view()),
{
    let mut headers: Vec<Header> = Vec::new();
    if let Some(token) = token {
        let mut value = scheme.to_owned();
        value.append(token.as_str());
        headers.push(Header { name: "Authorization".to_owned(), value });
    }
    headers
}

impl Config {
    /// The configuration for the stored `settings`. `docker_token` is the
    /// token that Docker Hub gave for the stored credentials, and `auth` the
    /// credential for ntfy.
    pub fn from_database(settings: &AppSettings, docker_token: Option<String>, auth: String) -> (config:
        Config)
        ensures
            config@ == config_of(*settings, docker_token.deep_view(), auth@),
    {
        Config {
            github_token: clone_text(&settings.github_token),
            docker_username: clone_text(&settings.docker_username),
            docker_password: clone_text(&settings.docker_password),
            docker_token,
            ntfy_url: clone_text(&settings.ntfy_url),
            gotify_url: clone_text(&settings.gotify_url),
            gotify_token: clone_text(&settings.gotify_token),
            discord_webhook_url: clone_text(&settings.discord_webhook_url),
            slack_webhook_url: clone_text(&settings.slack_webhook_url),
            auth,
            timeout: match settings.check_interval {
                Some(seconds) => seconds,
                None => DEFAULT_CHECK_INTERVAL,
            },
        }
    }

    /// The headers for the GitHub API: the token, where there is one.
    pub fn github_headers(&self) -> (headers: Vec<Header>)
        ensures
            header_views(headers@) == authorization("token "@, self@.github_token),
    {
        authorization_headers("token ", &self.github_token)
    }

    /// The headers for Docker Hub: the token, where there is one.
    pub fn docker_headers(&self) -> (headers: Vec<Header>)
        ensures
            header_views(headers@) == authorization("Bearer "@, self@.docker_token),
    {
        authorization_headers("Bearer ", &self.docker_token)
    }

    /// Whether at least one notification service is named.
    pub fn names_a_service(&self) -> (named: bool)
        ensures
            named == self@.names_a_service(),
    {
        self.ntfy_url.is_some() || self.gotify_url.is_some() || self.discord_webhook_url.is_some()
            || self.slack_webhook_url.is_some()
    }

    /// Whether the watcher cannot start yet.
    pub fn is_incomplete(&self) -> (incomplete: bool)
        ensures
            incomplete == self@.incomplete(),
    {
        self.auth.as_str().unicode_len() == 0 || !self.names_a_service()
    }
}

} // verus!
