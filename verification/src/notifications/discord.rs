//! Announcements for a Discord webhook: a JSON object with the text and the
//! name to post under. Discord takes at most 2000 characters.

use crate::models::{
    DockerReleaseInfo, DockerReleaseInfoView, GithubReleaseInfo, GithubReleaseInfoView,
};
use crate::notifications::{
    docker_heading_with_time, github_heading, github_heading_with_changelog,
    render_docker_heading_with_time, render_github_heading,
    render_github_heading_with_changelog, lemma_heading_of_fields,
    lemma_length_with_changelog,
};
use crate::wire::{
    header_views, member_views, no_members, with_member, Body, BodyView, ChannelKind, Delivery, DeliveryView,
    Header, Json, JsonView,
};
use vstd::prelude::*;
use vstd::string::*;

verus! {

/// The longest text, in characters, that is sent to Discord.
pub const MESSAGE_CEILING: usize = 2000;

/// The text for a GitHub release whose changelog is too long to send: the
/// heading and a link to the release.
pub open spec fn github_short_message(release: GithubReleaseInfoView) -> Seq<char> {
    github_heading(release) + "\n\n🔗 *Release Link*: "@ + release.html_url
}

/// The text sent for a GitHub release: the heading with the changelog where
/// that is within the ceiling, else the short form.
pub open spec fn github_message(release: GithubReleaseInfoView) -> Seq<char> {
    if github_heading_with_changelog(release).len() > MESSAGE_CEILING {
        github_short_message(release)
    } else {
        github_heading_with_changelog(release)
    }
}

/// The text sent for a Docker image.
pub open spec fn docker_message(release: DockerReleaseInfoView) -> Seq<char> {
    docker_heading_with_time(release) + "\n\n🔗 *Link*: "@ + release.html_url
}

/// The JSON object that carries a post: its text and the name to post
/// under.
pub open spec fn payload(content: Seq<char>) -> JsonView {
    JsonView::Object(
        seq![
            ("content"@, JsonView::Text(content)),
            ("username"@, JsonView::Text("GitHub Ntfy"@)),
        ],
    )
}

/// A post of `content` under the bot's name.
pub open spec fn delivery(content: Seq<char>, webhook_url: Seq<char>) -> DeliveryView {
    DeliveryView {
        channel: ChannelKind::Discord,
        url: webhook_url,
        headers: Seq::empty(),
        body: BodyView::Json(payload(content)),
    }
}

/// The request that announces a GitHub release.
pub open spec fn github_delivery(release: GithubReleaseInfoView, webhook_url: Seq<char>) -> DeliveryView {
    delivery(github_message(release), webhook_url)
}

/// The request that announces a Docker image.
pub open spec fn docker_delivery(release: DockerReleaseInfoView, webhook_url: Seq<char>) -> DeliveryView {
    delivery(docker_message(release), webhook_url)
}

/// A release is announced with its changelog exactly where the text with
/// the changelog is within the ceiling. Beyond that the short form is
/// sent, which is the same whatever the changelog holds.
pub proof fn lemma_truncation_boundary(release: GithubReleaseInfoView, changelog: Seq<char>)
    ensures
        github_heading_with_changelog(release).len() <= MESSAGE_CEILING ==> github_message(release)
            == github_heading_with_changelog(release),
        github_heading_with_changelog(release).len() > MESSAGE_CEILING ==> github_message(release)
            == github_short_message(release),
        github_heading(release).len() + 24 + release.changelog.len() > MESSAGE_CEILING
            <==> github_message(release) == github_short_message(release),
        github_short_message(GithubReleaseInfoView { changelog, ..release })
            == github_short_message(release),
{
    lemma_length_with_changelog(release);
    lemma_heading_of_fields(release, GithubReleaseInfoView { changelog, ..release });
    if github_heading_with_changelog(release).len() <= MESSAGE_CEILING {
        reveal_strlit("\n\n🔗 *Release Link*: ");
        reveal_strlit("\n\n📝 *Changelog*:\n\n```");
        let full = github_heading_with_changelog(release);
        let short = github_short_message(release);
        let at = github_heading(release).len() as int + 2;
        assert(short[at] == '🔗');
    }
}

fn render(content: String, webhook_url: &str) -> (d: Delivery)
    ensures
        d@ == delivery(content@, webhook_url@),
{
    let headers: Vec<Header> = Vec::new();
    assert(header_views(headers@) =~= Seq::empty());
    let members = no_members();
    let members = with_member(members, "content", Json::text(content.as_str()));
    let members = with_member(members, "username", Json::text("GitHub Ntfy"));
    assert(member_views(members@) =~= seq![
        ("content"@, JsonView::Text(content@)),
        ("username"@, JsonView::Text("GitHub Ntfy"@)),
    ]);
    Delivery {
        channel: ChannelKind::Discord,
        url: webhook_url.to_owned(),
        headers,
        body: Body::Json(Json::object(members)),
    }
}

/// Prepares the announcement of a GitHub release for the Discord webhook at
/// `webhook_url`.
pub fn send_github_notification(release: &GithubReleaseInfo, webhook_url: &str) -> (d: Delivery)
    ensures
        d@ == github_delivery(release@, webhook_url@),
{
    let full = render_github_heading_with_changelog(release);
    let message = if full.as_str().unicode_len() > MESSAGE_CEILING {
        let mut short = render_github_heading(release);
        short.append("\n\n🔗 *Release Link*: ");
        short.append(release.html_url.as_str());
        short
    } else {
        full
    };
    render(message, webhook_url)
}

/// Prepares the announcement of a Docker image for the Discord webhook at
/// `webhook_url`.
pub fn send_docker_notification(release: &DockerReleaseInfo, webhook_url: &str) -> (d: Delivery)
    ensures
        d@ == docker_delivery(release@, webhook_url@),
{
    let mut message = render_docker_heading_with_time(release);
    message.append("\n\n🔗 *Link*: ");
    message.append(release.html_url.as_str());
    render(message, webhook_url)
}

} // verus!
