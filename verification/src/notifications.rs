//! Rendering of release announcements, one module per notification service.

pub mod discord;
pub mod docker;
pub mod github;
pub mod gotify;
pub mod ntfy;
pub mod slack;

use crate::config::Config;
use crate::database::VersionStore;
use crate::dispatcher::{announce_all, announcements, channels_of, enabled_channels, stored_after};
use crate::release::{ReleaseDescriptor, ReleaseDescriptorView};
use crate::wire::{delivery_views, Delivery};
use crate::models::{
    DockerReleaseInfo, DockerReleaseInfoView, GithubReleaseInfo, GithubReleaseInfoView,
};
use crate::text::{app_name, display_time, readable_time, short_name};
use vstd::prelude::*;
use vstd::string::*;

verus! {

/// The opening lines of every announcement of a GitHub release: the tag, the
/// short name of the repository and the publication time.
pub open spec fn github_heading(release: GithubReleaseInfoView) -> Seq<char> {
    "📌 *New version*: "@ + release.tag_name + "\n\n📦*For*: "@ + short_name(release.repo)
        + "\n\n📅 *Published on*: "@ + display_time(release.published_at)
}

/// The heading followed by the changelog in a code block.
pub open spec fn github_heading_with_changelog(release: GithubReleaseInfoView) -> Seq<char> {
    github_heading(release) + "\n\n📝 *Changelog*:\n\n```"@ + release.changelog + "```"@
}

/// The opening lines of every announcement of a Docker image: the digest and
/// the short name of the repository.
pub open spec fn docker_heading(release: DockerReleaseInfoView) -> Seq<char> {
    "🐳 *Docker Image Updated!*\n\n🔐 *New Digest*: `"@ + release.digest + "`\n\n📦 *App*: "@
        + short_name(release.repo)
}

/// The Docker heading followed by the publication time.
pub open spec fn docker_heading_with_time(release: DockerReleaseInfoView) -> Seq<char> {
    docker_heading(release) + "\n\n📢 *Published*: "@ + display_time(release.published_at)
}

/// The title under which a release of `repo` is announced.
pub open spec fn announcement_title(repo: Seq<char>) -> Seq<char> {
    "New version for "@ + short_name(repo)
}

/// The heading with the changelog is as long as the heading, the changelog
/// and the 24 characters that frame the changelog.
pub proof fn lemma_length_with_changelog(release: GithubReleaseInfoView)
    ensures
        github_heading_with_changelog(release).len() == github_heading(release).len() + 24
            + release.changelog.len(),
{
    reveal_strlit("\n\n📝 *Changelog*:\n\n```");
    reveal_strlit("```");
}

/// The heading of a release is the same whatever its changelog, title and
/// link are.
pub proof fn lemma_heading_of_fields(release: GithubReleaseInfoView, other: GithubReleaseInfoView)
    requires
        release.tag_name == other.tag_name,
        release.repo == other.repo,
        release.published_at == other.published_at,
    ensures
        github_heading(release) == github_heading(other),
{
}

/// Writes the heading of a GitHub release.
pub fn render_github_heading(release: &GithubReleaseInfo) -> (text: String)
    ensures
        text@ == github_heading(release@),
{
    let name = app_name(release.repo.as_str());
    let time = readable_time(release.published_at.as_str());
    let mut text = "📌 *New version*: ".to_owned();
    text.append(release.tag_name.as_str());
    text.append("\n\n📦*For*: ");
    text.append(name.as_str());
    text.append("\n\n📅 *Published on*: ");
    text.append(time.as_str());
    text
}

/// Writes the heading of a GitHub release, followed by its changelog.
pub fn render_github_heading_with_changelog(release: &GithubReleaseInfo) -> (text: String)
    ensures
        text@ == github_heading_with_changelog(release@),
{
    let mut text = render_github_heading(release);
    text.append("\n\n📝 *Changelog*:\n\n```");
    text.append(release.changelog.as_str());
    text.append("```");
    text
}

/// Writes the heading of a Docker image.
pub fn render_docker_heading(release: &DockerReleaseInfo) -> (text: String)
    ensures
        text@ == docker_heading(release@),
{
    let name = app_name(release.repo.as_str());
    let mut text = "🐳 *Docker Image Updated!*\n\n🔐 *New Digest*: `".to_owned();
    text.append(release.digest.as_str());
    text.append("`\n\n📦 *App*: ");
    text.append(name.as_str());
    text
}

/// Writes the heading of a Docker image, followed by its publication time.
pub fn render_docker_heading_with_time(release: &DockerReleaseInfo) -> (text: String)
    ensures
        text@ == docker_heading_with_time(release@),
{
    let time = readable_time(release.published_at.as_str());
    let mut text = render_docker_heading(release);
    text.append("\n\n📢 *Published*: ");
    text.append(time.as_str());
    text
}

/// Writes the title under which a release of `repo` is announced.
pub fn render_announcement_title(repo: &str) -> (title: String)
    ensures
        title@ == announcement_title(repo@),
{
    let name = app_name(repo);
    let mut title = "New version for ".to_owned();
    title.append(name.as_str());
    title
}

/// The releases fetched in one poll cycle, each as a descriptor: those of
/// GitHub first, then those of Docker Hub, each list in its own order.
pub open spec fn fetched(
    github_releases: Seq<GithubReleaseInfo>,
    docker_releases: Seq<DockerReleaseInfo>,
) -> Seq<ReleaseDescriptorView> {
    github::descriptors(github_releases) + docker::descriptors(docker_releases)
}

/// Runs the detector over the releases of one poll cycle and prepares the
/// announcements: every release that is new when its turn comes is recorded
/// in `store` and announced on every channel that `config` enables. A
/// release that is not new leaves no trace.
pub fn send_notifications(
    github_releases: Vec<GithubReleaseInfo>,
    docker_releases: Vec<DockerReleaseInfo>,
    config: &Config,
    store: &mut VersionStore,
) -> (deliveries: Vec<Delivery>)
    ensures
        final(store)@ == stored_after(old(store)@, fetched(github_releases@, docker_releases@)),
        delivery_views(deliveries@) == announcements(
            old(store)@,
            fetched(github_releases@, docker_releases@),
            channels_of(config@),
        ),
{
    let channels = enabled_channels(config);
    let mut releases: Vec<ReleaseDescriptor> = Vec::new();
    let mut at: usize = 0;
    while at < github_releases.len()
        invariant
            at <= github_releases.len(),
            releases.len() == at,
            forall|i: int|
                0 <= i < at ==> releases[i]@ == ReleaseDescriptorView::GitHub(github_releases[i]@),
        decreases github_releases.len() - at,
    {
        releases.push(ReleaseDescriptor::GitHub(github_releases[at].clone()));
        at += 1;
    }
    let mut at: usize = 0;
    while at < docker_releases.len()
        invariant
            at <= docker_releases.len(),
            releases.len() == github_releases.len() + at,
            forall|i: int|
                0 <= i < github_releases.len() ==> releases[i]@ == ReleaseDescriptorView::GitHub(
                    github_releases[i]@,
                ),
            forall|i: int|
                0 <= i < at ==> releases[github_releases.len() + i]@
                    == ReleaseDescriptorView::Docker(docker_releases[i]@),
        decreases docker_releases.len() - at,
    {
        releases.push(ReleaseDescriptor::Docker(docker_releases[at].clone()));
        at += 1;
    }
    assert(crate::dispatcher::release_views(releases@) =~= fetched(
        github_releases@,
        docker_releases@,
    ));
    announce_all(store, &channels, &releases)
}

} // verus!
