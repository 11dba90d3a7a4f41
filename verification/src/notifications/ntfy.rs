//! Announcements for an ntfy server: the text as the body, the rest in
//! headers.

use crate::models::{
    DockerReleaseInfo, DockerReleaseInfoView, GithubReleaseInfo, GithubReleaseInfoView,
};
use crate::notifications::{
    announcement_title, docker_heading_with_time, github_heading_with_changelog,
    render_announcement_title, render_docker_heading_with_time,
    render_github_heading_with_changelog,
};
use crate::text::{app_name, short_name};
use crate::wire::{
    header, header_value_of, header_views, Body, BodyView, ChannelKind, Delivery, DeliveryView,
    Header, HeaderView,
};
use vstd::prelude::*;
use vstd::string::*;

verus! {

/// The text sent for a GitHub release.
pub open spec fn github_message(release: GithubReleaseInfoView) -> Seq<char> {
    github_heading_with_changelog(release) + "\n\n 🔗 *Release Url*: "@ + release.html_url
}

/// The text sent for a Docker image.
pub open spec fn docker_message(release: DockerReleaseInfoView) -> Seq<char> {
    docker_heading_with_time(release) + "\n\n 🔗 *Release Url*: "@ + release.html_url
}

/// The headers of an announcement: the credential, the title, the fixed
/// priority and markdown flags, and one action that opens `link`.
pub open spec fn headers(
    auth: Seq<char>,
    title: Seq<char>,
    verb: Seq<char>,
    repo: Seq<char>,
    link: Seq<char>,
) -> Seq<HeaderView> {
    seq![
        HeaderView { name: "Authorization"@, value: header_value_of("Basic "@ + auth) },
        HeaderView { name: "Title"@, value: header_value_of(title) },
        HeaderView { name: "Priority"@, value: "urgent"@ },
        HeaderView { name: "Markdown"@, value: "yes"@ },
        HeaderView {
            name: "Actions"@,
            value: header_value_of(
                verb + ", Update "@ + short_name(repo) + ", "@ + link + ", clear=true"@,
            ),
        },
    ]
}

/// The request that announces a GitHub release.
pub open spec fn github_delivery(
    release: GithubReleaseInfoView,
    auth: Seq<char>,
    ntfy_url: Seq<char>,
) -> DeliveryView {
    DeliveryView {
        channel: ChannelKind::Ntfy,
        url: ntfy_url,
        headers: headers(
            auth,
            announcement_title(release.repo),
            "view"@,
            release.repo,
            release.html_url,
        ),
        body: BodyView::Text(github_message(release)),
    }
}

/// The request that announces a Docker image.
pub open spec fn docker_delivery(
    release: DockerReleaseInfoView,
    auth: Seq<char>,
    ntfy_url: Seq<char>,
) -> DeliveryView {
    DeliveryView {
        channel: ChannelKind::Ntfy,
        url: ntfy_url,
        headers: headers(
            auth,
            "🆕 "@ + announcement_title(release.repo),
            "View"@,
            release.repo,
            release.html_url,
        ),
        body: BodyView::Text(docker_message(release)),
    }
}

fn render_headers(auth: &str, title: String, verb: &str, repo: &str, link: &str) -> (list: Vec<
    Header,
>)
    ensures
        header_views(list@) == headers(auth@, title@, verb@, repo@, link@),
{
    let name = app_name(repo);
    let mut credential = "Basic ".to_owned();
    credential.append(auth);
    let mut action = verb.to_owned();
    action.append(", Update ");
    action.append(name.as_str());
    action.append(", ");
    action.append(link);
    action.append(", clear=true");
    let mut list: Vec<Header> = Vec::new();
    list.push(header("Authorization", credential));
    list.push(header("Title", title));
    list.push(Header { name: "Priority".to_owned(), value: "urgent".to_owned() });
    list.push(Header { name: "Markdown".to_owned(), value: "yes".to_owned() });
    list.push(header("Actions", action));
    list
}

/// Prepares the announcement of a GitHub release for the ntfy server at
/// `ntfy_url`, with `auth` as the Basic credential.
pub fn send_github_notification(release: &GithubReleaseInfo, auth: &str, ntfy_url: &str) -> (d:
    Delivery)
    ensures
        d@ == github_delivery(release@, auth@, ntfy_url@),
{
    let title = render_announcement_title(release.repo.as_str());
    let headers = render_headers(
        auth,
        title,
        "view",
        release.repo.as_str(),
        release.html_url.as_str(),
    );
    let mut message = render_github_heading_with_changelog(release);
    message.append("\n\n 🔗 *Release Url*: ");
    message.append(release.html_url.as_str());
    Delivery {
        channel: ChannelKind::Ntfy,
        url: ntfy_url.to_owned(),
        headers,
        body: Body::Text(message),
    }
}

/// Prepares the announcement of a Docker image for the ntfy server at
/// `ntfy_url`, with `auth` as the Basic credential.
pub fn send_docker_notification(release: &DockerReleaseInfo, auth: &str, ntfy_url: &str) -> (d:
    Delivery)
    ensures
        d@ == docker_delivery(release@, auth@, ntfy_url@),
{
    let mut title = "🆕 ".to_owned();
    let plain = render_announcement_title(release.repo.as_str());
    title.append(plain.as_str());
    let headers = render_headers(
        auth,
        title,
        "View",
        release.repo.as_str(),
        release.html_url.as_str(),
    );
    let mut message = render_docker_heading_with_time(release);
    message.append("\n\n 🔗 *Release Url*: ");
    message.append(release.html_url.as_str());
    Delivery {
        channel: ChannelKind::Ntfy,
        url: ntfy_url.to_owned(),
        headers,
        body: Body::Text(message),
    }
}

} // verus!
