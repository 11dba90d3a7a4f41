//! Announcements for a Gotify server: a JSON message posted with the
//! application token in the query.

use crate::models::{
    DockerReleaseInfo, DockerReleaseInfoView, GithubReleaseInfo, GithubReleaseInfoView,
};
use crate::notifications::{
    announcement_title, docker_heading_with_time, github_heading_with_changelog,
    render_announcement_title, render_docker_heading_with_time,
    render_github_heading_with_changelog,
};
use crate::wire::{
    header_views, member_views, no_members, with_member, Body, BodyView, ChannelKind, Delivery, DeliveryView,
    Header, Json, JsonView,
};
use vstd::prelude::*;
use vstd::string::*;

verus! {

/// Where a message for the server at `gotify_url` is posted.
pub open spec fn message_url(gotify_url: Seq<char>, token: Seq<char>) -> Seq<char> {
    gotify_url + "/message?token="@ + token
}

/// The text sent for a GitHub release.
pub open spec fn github_message(release: GithubReleaseInfoView) -> Seq<char> {
    github_heading_with_changelog(release) + "\n\n🔗 *Release Url*:"@ + release.html_url
}

/// The text sent for a Docker image.
pub open spec fn docker_message(release: DockerReleaseInfoView) -> Seq<char> {
    docker_heading_with_time(release) + "\n\n🔗 *Release Url*:"@ + release.html_url
}

/// The JSON object that carries a message: its title, its text and the
/// priority 2.
pub open spec fn payload(title: Seq<char>, message: Seq<char>) -> JsonView {
    JsonView::Object(
        seq![
            ("title"@, JsonView::Text(title)),
            ("message"@, JsonView::Text(message)),
            ("priority"@, JsonView::Text("2"@)),
        ],
    )
}

/// A message of priority 2 under the usual title.
pub open spec fn delivery(
    repo: Seq<char>,
    message: Seq<char>,
    token: Seq<char>,
    gotify_url: Seq<char>,
) -> DeliveryView {
    DeliveryView {
        channel: ChannelKind::Gotify,
        url: message_url(gotify_url, token),
        headers: Seq::empty(),
        body: BodyView::Json(payload(announcement_title(repo), message)),
    }
}

/// The request that announces a GitHub release.
pub open spec fn github_delivery(
    release: GithubReleaseInfoView,
    token: Seq<char>,
    gotify_url: Seq<char>,
) -> DeliveryView {
    delivery(release.repo, github_message(release), token, gotify_url)
}

/// The request that announces a Docker image.
pub open spec fn docker_delivery(
    release: DockerReleaseInfoView,
    token: Seq<char>,
    gotify_url: Seq<char>,
) -> DeliveryView {
    delivery(release.repo, docker_message(release), token, gotify_url)
}

fn render(repo: &str, message: String, token: &str, gotify_url: &str) -> (d: Delivery)
    ensures
        d@ == delivery(repo@, message@, token@, gotify_url@),
{
    let mut url = gotify_url.to_owned();
    url.append("/message?token=");
    url.append(token);
    let headers: Vec<Header> = Vec::new();
    assert(header_views(headers@) =~= Seq::empty());
    let title = render_announcement_title(repo);
    let members = no_members();
    let members = with_member(members, "title", Json::text(title.as_str()));
    let members = with_member(members, "message", Json::text(message.as_str()));
    let members = with_member(members, "priority", Json::text("2"));
    assert(member_views(members@) =~= seq![
        ("title"@, JsonView::Text(title@)),
        ("message"@, JsonView::Text(message@)),
        ("priority"@, JsonView::Text("2"@)),
    ]);
    Delivery { channel: ChannelKind::Gotify, url, headers, body: Body::Json(Json::object(members)) }
}

/// Prepares the announcement of a GitHub release for the Gotify server at
/// `gotify_url`, under the application `token`.
pub fn send_github_notification(release: &GithubReleaseInfo, token: &str, gotify_url: &str) -> (d:
    Delivery)
    ensures
        d@ == github_delivery(release@, token@, gotify_url@),
{
    let mut message = render_github_heading_with_changelog(release);
    message.append("\n\n🔗 *Release Url*:");
    message.append(release.html_url.as_str());
    render(release.repo.as_str(), message, token, gotify_url)
}

/// Prepares the announcement of a Docker image for the Gotify server at
/// `gotify_url`, under the application `token`.
pub fn send_docker_notification(release: &DockerReleaseInfo, token: &str, gotify_url: &str) -> (d:
    Delivery)
    ensures
        d@ == docker_delivery(release@, token@, gotify_url@),
{
    let mut message = render_docker_heading_with_time(release);
    message.append("\n\n🔗 *Release Url*:");
    message.append(release.html_url.as_str());
    render(release.repo.as_str(), message, token, gotify_url)
}

} // verus!
