//! Plain data exchanged between the connectors, the detector and the
//! notification channels.

use vstd::prelude::*;

verus! {

/// Copies an optional text.
pub fn clone_text(text: &Option<String>) -> (copy: Option<String>)
    ensures
        copy == *text,
{
    match text {
        Some(t) => Some(t.clone()),
        None => None,
    }
}

/// A release as the GitHub API reports it.
#[derive(Debug)]
pub struct GithubRelease {
    pub name: String,
    pub tag_name: String,
    pub html_url: String,
    pub published_at: Option<String>,
    pub body: Option<String>,
}

/// The mathematical view of [`GithubRelease`].
pub ghost struct GithubReleaseView {
    pub name: Seq<char>,
    pub tag_name: Seq<char>,
    pub html_url: Seq<char>,
    pub published_at: Option<Seq<char>>,
    pub body: Option<Seq<char>>,
}

impl View for GithubRelease {
    type V = GithubReleaseView;

    open spec fn view(&self) -> GithubReleaseView {
        GithubReleaseView {
            name: self.name@,
            tag_name: self.tag_name@,
            html_url: self.html_url@,
            published_at: self.published_at.deep_view(),
            body: self.body.deep_view(),
        }
    }
}

impl DeepView for GithubRelease {
    type V = GithubReleaseView;

    open spec fn deep_view(&self) -> GithubReleaseView {
        self@
    }
}

impl Clone for GithubRelease {
    fn clone(&self) -> (copy: Self)
        ensures
            copy == *self,
    {
        GithubRelease {
            name: self.name.clone(),
            tag_name: self.tag_name.clone(),
            html_url: self.html_url.clone(),
            published_at: clone_text(&self.published_at),
            body: clone_text(&self.body),
        }
    }
}

/// The latest release of a watched GitHub repository, ready to be compared
/// and announced.
#[derive(Debug)]
pub struct GithubReleaseInfo {
    pub repo: String,
    pub name: String,
    pub tag_name: String,
    pub html_url: String,
    pub changelog: String,
    pub published_at: String,
}

/// The mathematical view of [`GithubReleaseInfo`].
pub ghost struct GithubReleaseInfoView {
    pub repo: Seq<char>,
    pub name: Seq<char>,
    pub tag_name: Seq<char>,
    pub html_url: Seq<char>,
    pub changelog: Seq<char>,
    pub published_at: Seq<char>,
}

impl View for GithubReleaseInfo {
    type V = GithubReleaseInfoView;

    open spec fn view(&self) -> GithubReleaseInfoView {
        GithubReleaseInfoView {
            repo: self.repo@,
            name: self.name@,
            tag_name: self.tag_name@,
            html_url: self.html_url@,
            changelog: self.changelog@,
            published_at: self.published_at@,
        }
    }
}

impl Clone for GithubReleaseInfo {
    fn clone(&self) -> (copy: Self)
        ensures
            copy == *self,
    {
        GithubReleaseInfo {
            repo: self.repo.clone(),
            name: self.name.clone(),
            tag_name: self.tag_name.clone(),
            html_url: self.html_url.clone(),
            changelog: self.changelog.clone(),
            published_at: self.published_at.clone(),
        }
    }
}

/// The `latest` tag of an image as Docker Hub reports it.
#[derive(Debug)]
pub struct DockerTag {
    pub digest: String,
    pub last_updated: String,
}

/// The mathematical view of [`DockerTag`].
pub ghost struct DockerTagView {
    pub digest: Seq<char>,
    pub last_updated: Seq<char>,
}

impl View for DockerTag {
    type V = DockerTagView;

    open spec fn view(&self) -> DockerTagView {
        DockerTagView { digest: self.digest@, last_updated: self.last_updated@ }
    }
}

/// The current image of a watched Docker repository, ready to be compared
/// and announced.
#[derive(Debug)]
pub struct DockerReleaseInfo {
    pub repo: String,
    pub digest: String,
    pub html_url: String,
    pub published_at: String,
}

/// The mathematical view of [`DockerReleaseInfo`].
pub ghost struct DockerReleaseInfoView {
    pub repo: Seq<char>,
    pub digest: Seq<char>,
    pub html_url: Seq<char>,
    pub published_at: Seq<char>,
}

impl View for DockerReleaseInfo {
    type V = DockerReleaseInfoView;

    open spec fn view(&self) -> DockerReleaseInfoView {
        DockerReleaseInfoView {
            repo: self.repo@,
            digest: self.digest@,
            html_url: self.html_url@,
            published_at: self.published_at@,
        }
    }
}

impl Clone for DockerReleaseInfo {
    fn clone(&self) -> (copy: Self)
        ensures
            copy == *self,
    {
        DockerReleaseInfo {
            repo: self.repo.clone(),
            digest: self.digest.clone(),
            html_url: self.html_url.clone(),
            published_at: self.published_at.clone(),
        }
    }
}

/// A point in time: whole seconds since the Unix epoch, and the nanoseconds
/// into the second that follows.
#[derive(Debug, Clone, Copy, PartialEq, Eq, Structural)]
pub struct Timestamp {
    pub seconds: i64,
    pub nanoseconds: u32,
}

impl Timestamp {
    /// Whether `self` lies before `other`.
    pub open spec fn before(self, other: Timestamp) -> bool {
        self.seconds < other.seconds || (self.seconds == other.seconds && self.nanoseconds
            < other.nanoseconds)
    }

    /// Whether `self` lies before `other`.
    pub fn is_before(&self, other: &Timestamp) -> (earlier: bool)
        ensures
            earlier == self.before(*other),
    {
        self.seconds < other.seconds || (self.seconds == other.seconds && self.nanoseconds
            < other.nanoseconds)
    }
}

/// A release of which the channels were told.
#[derive(Debug)]
pub struct NotifiedRelease {
    pub repo: String,
    pub tag_name: String,
    pub notified_at: Timestamp,
}

/// An account of the control plane.
#[derive(Debug)]
pub struct User {
    pub id: i64,
    pub username: String,
    pub password_hash: String,
    pub is_admin: bool,
    pub created_at: Timestamp,
}

impl Clone for User {
    fn clone(&self) -> (copy: Self)
        ensures
            copy == *self,
    {
        User {
            id: self.id,
            username: self.username.clone(),
            password_hash: self.password_hash.clone(),
            is_admin: self.is_admin,
            created_at: self.created_at,
        }
    }
}

/// A login that is valid until `expires_at`.
#[derive(Debug)]
pub struct Session {
    pub token: String,
    pub user_id: i64,
    pub expires_at: Timestamp,
}

/// The settings that the control plane keeps.
#[derive(Debug)]
pub struct AppSettings {
    pub id: Option<i64>,
    pub ntfy_url: Option<String>,
    pub github_token: Option<String>,
    pub docker_username: Option<String>,
    pub docker_password: Option<String>,
    pub gotify_url: Option<String>,
    pub gotify_token: Option<String>,
    pub discord_webhook_url: Option<String>,
    pub slack_webhook_url: Option<String>,
    pub check_interval: Option<i64>,
    pub auth: Option<String>,
    pub last_updated: Timestamp,
}

/// What a successful login or registration answers with.
#[derive(Debug)]
pub struct AuthResponse {
    pub token: String,
    pub user: User,
}

/// Credentials sent to log in.
#[derive(Debug)]
pub struct UserLogin {
    pub username: String,
    pub password: String,
}

impl Clone for UserLogin {
    fn clone(&self) -> (copy: Self)
        ensures
            copy == *self,
    {
        UserLogin { username: self.username.clone(), password: self.password.clone() }
    }
}

/// Data sent to create an account.
#[derive(Debug)]
pub struct UserRegistration {
    pub username: String,
    pub password: String,
    pub is_admin: bool,
}

impl Clone for UserRegistration {
    fn clone(&self) -> (copy: Self)
        ensures
            copy == *self,
    {
        UserRegistration {
            username: self.username.clone(),
            password: self.password.clone(),
            is_admin: self.is_admin,
        }
    }
}

/// The envelope of every answer of the control plane.
#[derive(Debug)]
pub struct ApiResponse<T> {
    pub success: bool,
    pub message: String,
    pub data: Option<T>,
}

} // verus!
