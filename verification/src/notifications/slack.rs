//! Announcements for a Slack webhook: one section block with the text and a
//! button that opens the release, then a divider. The text is kept within
//! 2000 characters.

use crate::models::{
    DockerReleaseInfo, DockerReleaseInfoView, GithubReleaseInfo, GithubReleaseInfoView,
};
use crate::notifications::{
    docker_heading, github_heading, github_heading_with_changelog, render_docker_heading,
    render_github_heading, render_github_heading_with_changelog, lemma_heading_of_fields,
    lemma_length_with_changelog,
};
use crate::text::{display_time, readable_time};
use crate::wire::{
    header_views, json_views, member_views, no_items, no_members, with_item, with_member, Body,
    BodyView, ChannelKind, Delivery, DeliveryView, Header, HeaderView, Json, JsonView,
};
use vstd::prelude::*;
use vstd::string::*;

verus! {

/// The longest text, in characters, that is sent to Slack.
pub const MESSAGE_CEILING: usize = 2000;

/// The text for a GitHub release whose changelog is too long to send: the
/// heading and a pointer to the button.
pub open spec fn github_short_message(release: GithubReleaseInfoView) -> Seq<char> {
    github_heading(release) + "\n\n📝 *Changelog*:\n\n `truncated..` use 🔗 instead"@
}

/// The text sent for a GitHub release: the heading with the changelog where
/// that is within the ceiling, else the short form.
pub open spec fn github_message(release: GithubReleaseInfoView) -> Seq<char> {
    if github_heading_with_changelog(release).len() > MESSAGE_CEILING {
        github_short_message(release)
    } else {
        github_heading_with_changelog(release)
    }
}

/// The text sent for a Docker image.
pub open spec fn docker_message(release: DockerReleaseInfoView) -> Seq<char> {
    docker_heading(release) + "\n\n📢*Published*: "@ + display_time(release.published_at)
}

/// A text object of the given kind.
pub open spec fn text_object(kind: Seq<char>, text: Seq<char>) -> JsonView {
    JsonView::Object(seq![("type"@, JsonView::Text(kind)), ("text"@, JsonView::Text(text))])
}

/// A button labelled `label` that opens `link`.
pub open spec fn button(label: Seq<char>, link: Seq<char>) -> JsonView {
    JsonView::Object(
        seq![
            ("type"@, JsonView::Text("button"@)),
            ("text"@, text_object("plain_text"@, label)),
            ("url"@, JsonView::Text(link)),
            ("action_id"@, JsonView::Text("button-action"@)),
        ],
    )
}

/// A section that shows `text` as markdown beside a button.
pub open spec fn section(text: Seq<char>, button_label: Seq<char>, link: Seq<char>) -> JsonView {
    JsonView::Object(
        seq![
            ("type"@, JsonView::Text("section"@)),
            ("text"@, text_object("mrkdwn"@, text)),
            ("accessory"@, button(button_label, link)),
        ],
    )
}

/// The JSON object that carries a message: a section, then a divider.
pub open spec fn payload(text: Seq<char>, button_label: Seq<char>, link: Seq<char>) -> JsonView {
    JsonView::Object(
        seq![
            (
                "blocks"@,
                JsonView::List(
                    seq![
                        section(text, button_label, link),
                        JsonView::Object(seq![("type"@, JsonView::Text("divider"@))]),
                    ],
                ),
            ),
        ],
    )
}

/// A section with `text` and a button labelled `button_label` that opens
/// `link`.
pub open spec fn delivery(
    text: Seq<char>,
    button_label: Seq<char>,
    link: Seq<char>,
    webhook_url: Seq<char>,
) -> DeliveryView {
    DeliveryView {
        channel: ChannelKind::Slack,
        url: webhook_url,
        headers: seq![HeaderView { name: "Content-Type"@, value: "application/json"@ }],
        body: BodyView::Json(payload(text, button_label, link)),
    }
}

/// The request that announces a GitHub release.
pub open spec fn github_delivery(release: GithubReleaseInfoView, webhook_url: Seq<char>) -> DeliveryView {
    delivery(github_message(release), "View Release"@, release.html_url, webhook_url)
}

/// The request that announces a Docker image.
pub open spec fn docker_delivery(release: DockerReleaseInfoView, webhook_url: Seq<char>) -> DeliveryView {
    delivery(docker_message(release), "View Image"@, release.html_url, webhook_url)
}

/// A release is announced with its changelog exactly where the text with
/// the changelog is within the ceiling. Beyond that the short form is
/// sent, which is the same whatever the changelog holds.
pub proof fn lemma_truncation_boundary(release: GithubReleaseInfoView, changelog: Seq<char>)
    ensures
        github_heading_with_changelog(release).len() <= MESSAGE_CEILING ==> github_message(release)
            == github_heading_with_changelog(release),
        github_heading_with_changelog(release).len() > MESSAGE_CEILING ==> github_message(release)
            == github_short_message(release),
        github_heading(release).len() + 24 + release.changelog.len() > MESSAGE_CEILING
            <==> github_message(release) == github_short_message(release),
        github_short_message(GithubReleaseInfoView { changelog, ..release })
            == github_short_message(release),
{
    lemma_length_with_changelog(release);
    lemma_heading_of_fields(release, GithubReleaseInfoView { changelog, ..release });
    if github_heading_with_changelog(release).len() <= MESSAGE_CEILING {
        reveal_strlit("\n\n📝 *Changelog*:\n\n `truncated..` use 🔗 instead");
        reveal_strlit("\n\n📝 *Changelog*:\n\n```");
        let full = github_heading_with_changelog(release);
        let short = github_short_message(release);
        let at = github_heading(release).len() as int + 18;
        assert(short[at] == ' ');
    }
}

fn render_text_object(kind: &str, text: &str) -> (value: Json)
    ensures
        value@ == text_object(kind@, text@),
{
    let members = no_members();
    let members = with_member(members, "type", Json::text(kind));
    let members = with_member(members, "text", Json::text(text));
    assert(member_views(members@) =~= seq![
        ("type"@, JsonView::Text(kind@)),
        ("text"@, JsonView::Text(text@)),
    ]);
    Json::object(members)
}

fn render_button(label: &str, link: &str) -> (value: Json)
    ensures
        value@ == button(label@, link@),
{
    let members = no_members();
    let members = with_member(members, "type", Json::text("button"));
    let members = with_member(members, "text", render_text_object("plain_text", label));
    let members = with_member(members, "url", Json::text(link));
    let members = with_member(members, "action_id", Json::text("button-action"));
    assert(member_views(members@) =~= seq![
        ("type"@, JsonView::Text("button"@)),
        ("text"@, text_object("plain_text"@, label@)),
        ("url"@, JsonView::Text(link@)),
        ("action_id"@, JsonView::Text("button-action"@)),
    ]);
    Json::object(members)
}

fn render_section(text: &str, button_label: &str, link: &str) -> (value: Json)
    ensures
        value@ == section(text@, button_label@, link@),
{
    let members = no_members();
    let members = with_member(members, "type", Json::text("section"));
    let members = with_member(members, "text", render_text_object("mrkdwn", text));
    let members = with_member(members, "accessory", render_button(button_label, link));
    assert(member_views(members@) =~= seq![
        ("type"@, JsonView::Text("section"@)),
        ("text"@, text_object("mrkdwn"@, text@)),
        ("accessory"@, button(button_label@, link@)),
    ]);
    Json::object(members)
}

fn render_payload(text: &str, button_label: &str, link: &str) -> (value: Json)
    ensures
        value@ == payload(text@, button_label@, link@),
{
    let divider = Json::object(with_member(no_members(), "type", Json::text("divider")));
    let blocks = with_item(no_items(), render_section(text, button_label, link));
    let blocks = with_item(blocks, divider);
    assert(json_views(blocks@) =~= seq![
        section(text@, button_label@, link@),
        JsonView::Object(seq![("type"@, JsonView::Text("divider"@))]),
    ]);
    Json::object(with_member(no_members(), "blocks", Json::list(blocks)))
}

fn render(text: String, button_label: &str, link: &str, webhook_url: &str) -> (d: Delivery)
    ensures
        d@ == delivery(text@, button_label@, link@, webhook_url@),
{
    let mut headers: Vec<Header> = Vec::new();
    headers.push(
        Header { name: "Content-Type".to_owned(), value: "application/json".to_owned() },
    );
    assert(header_views(headers@) =~= seq![
        HeaderView { name: "Content-Type"@, value: "application/json"@ },
    ]);
    Delivery {
        channel: ChannelKind::Slack,
        url: webhook_url.to_owned(),
        headers,
        body: Body::Json(render_payload(text.as_str(), button_label, link)),
    }
}

/// Prepares the announcement of a GitHub release for the Slack webhook at
/// `webhook_url`.
pub fn send_github_notification(release: &GithubReleaseInfo, webhook_url: &str) -> (d: Delivery)
    ensures
        d@ == github_delivery(release@, webhook_url@),
{
    let full = render_github_heading_with_changelog(release);
    let message = if full.as_str().unicode_len() > MESSAGE_CEILING {
        let mut short = render_github_heading(release);
        short.append("\n\n📝 *Changelog*:\n\n `truncated..` use 🔗 instead");
        short
    } else {
        full
    };
    render(message, "View Release", release.html_url.as_str(), webhook_url)
}

/// Prepares the announcement of a Docker image for the Slack webhook at
/// `webhook_url`.
pub fn send_docker_notification(release: &DockerReleaseInfo, webhook_url: &str) -> (d: Delivery)
    ensures
        d@ == docker_delivery(release@, webhook_url@),
{
    let time = readable_time(release.published_at.as_str());
    let mut message = render_docker_heading(release);
    message.append("\n\n📢*Published*: ");
    message.append(time.as_str());
    render(message, "View Image", release.html_url.as_str(), webhook_url)
}

} // verus!
