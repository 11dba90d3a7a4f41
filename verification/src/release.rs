//! The release descriptor: what one poll of one watched entity produced.

use crate::database::{VersionRecord, VersionRecordView};
use crate::docker::{latest_tag_address, latest_tag_url};
use crate::github::{latest_release_address, latest_release_url};
use crate::models::{
    DockerReleaseInfo, DockerReleaseInfoView, GithubReleaseInfo, GithubReleaseInfoView,
};
use vstd::prelude::*;
use vstd::string::*;

verus! {

/// The kinds of entity that can be watched.
#[derive(Debug, Clone, Copy, PartialEq, Eq, Structural)]
pub enum EntityKind {
    GitHubRepo,
    DockerRepo,
}

/// An entity on the watch list.
#[derive(Debug)]
pub struct WatchedEntity {
    pub identifier: String,
    pub kind: EntityKind,
}

impl WatchedEntity {
    /// Where the current release of the entity is asked for.
    pub open spec fn poll_url(self) -> Seq<char> {
        match self.kind {
            EntityKind::GitHubRepo => latest_release_url(self.identifier@),
            EntityKind::DockerRepo => latest_tag_url(self.identifier@),
        }
    }

    /// The address to poll for this entity.
    pub fn poll_address(&self) -> (url: String)
        ensures
            url@ == self.poll_url(),
    {
        match self.kind {
            EntityKind::GitHubRepo => latest_release_address(self.identifier.as_str()),
            EntityKind::DockerRepo => latest_tag_address(self.identifier.as_str()),
        }
    }
}

/// The current release of a watched entity, as its registry reports it.
#[derive(Debug)]
pub enum ReleaseDescriptor {
    GitHub(GithubReleaseInfo),
    Docker(DockerReleaseInfo),
}

/// The mathematical view of [`ReleaseDescriptor`].
pub ghost enum ReleaseDescriptorView {
    GitHub(GithubReleaseInfoView),
    Docker(DockerReleaseInfoView),
}

impl View for ReleaseDescriptor {
    type V = ReleaseDescriptorView;

    open spec fn view(&self) -> ReleaseDescriptorView {
        match self {
            ReleaseDescriptor::GitHub(info) => ReleaseDescriptorView::GitHub(info@),
            ReleaseDescriptor::Docker(info) => ReleaseDescriptorView::Docker(info@),
        }
    }
}

impl ReleaseDescriptorView {
    /// The kind of the entity.
    pub open spec fn kind(self) -> EntityKind {
        match self {
            ReleaseDescriptorView::GitHub(_) => EntityKind::GitHubRepo,
            ReleaseDescriptorView::Docker(_) => EntityKind::DockerRepo,
        }
    }

    /// The identifier of the entity.
    pub open spec fn entity(self) -> Seq<char> {
        match self {
            ReleaseDescriptorView::GitHub(info) => info.repo,
            ReleaseDescriptorView::Docker(info) => info.repo,
        }
    }

    /// The version marker: the tag of a GitHub release, the digest of a
    /// Docker image.
    pub open spec fn marker(self) -> Seq<char> {
        match self {
            ReleaseDescriptorView::GitHub(info) => info.tag_name,
            ReleaseDescriptorView::Docker(info) => info.digest,
        }
    }

    /// The changelog, which only a GitHub release has.
    pub open spec fn changelog(self) -> Option<Seq<char>> {
        match self {
            ReleaseDescriptorView::GitHub(info) => Some(info.changelog),
            ReleaseDescriptorView::Docker(_) => None,
        }
    }

    /// The title, which only a GitHub release has.
    pub open spec fn title(self) -> Option<Seq<char>> {
        match self {
            ReleaseDescriptorView::GitHub(info) => Some(info.name),
            ReleaseDescriptorView::Docker(_) => None,
        }
    }

    /// When the release was published, as the registry wrote it.
    pub open spec fn published_at(self) -> Seq<char> {
        match self {
            ReleaseDescriptorView::GitHub(info) => info.published_at,
            ReleaseDescriptorView::Docker(info) => info.published_at,
        }
    }

    /// The page of the release.
    pub open spec fn url(self) -> Seq<char> {
        match self {
            ReleaseDescriptorView::GitHub(info) => info.html_url,
            ReleaseDescriptorView::Docker(info) => info.html_url,
        }
    }

    /// The record that the store keeps once this release was seen.
    pub open spec fn record(self) -> VersionRecordView {
        VersionRecordView {
            repo: self.entity(),
            version: self.marker(),
            changelog: self.changelog(),
        }
    }
}

impl ReleaseDescriptor {
    /// The kind of the entity.
    pub fn kind(&self) -> (kind: EntityKind)
        ensures
            kind == self@.kind(),
    {
        match self {
            ReleaseDescriptor::GitHub(_) => EntityKind::GitHubRepo,
            ReleaseDescriptor::Docker(_) => EntityKind::DockerRepo,
        }
    }

    /// The identifier of the entity.
    pub fn entity(&self) -> (entity: &str)
        ensures
            entity@ == self@.entity(),
    {
        match self {
            ReleaseDescriptor::GitHub(info) => info.repo.as_str(),
            ReleaseDescriptor::Docker(info) => info.repo.as_str(),
        }
    }

    /// The version marker.
    pub fn marker(&self) -> (marker: &str)
        ensures
            marker@ == self@.marker(),
    {
        match self {
            ReleaseDescriptor::GitHub(info) => info.tag_name.as_str(),
            ReleaseDescriptor::Docker(info) => info.digest.as_str(),
        }
    }

    /// The changelog, if the release has one.
    pub fn changelog(&self) -> (changelog: Option<&str>)
        ensures
            changelog.deep_view() == self@.changelog(),
    {
        match self {
            ReleaseDescriptor::GitHub(info) => Some(info.changelog.as_str()),
            ReleaseDescriptor::Docker(_) => None,
        }
    }

    /// The title, if the release has one.
    pub fn title(&self) -> (title: Option<&str>)
        ensures
            title.deep_view() == self@.title(),
    {
        match self {
            ReleaseDescriptor::GitHub(info) => Some(info.name.as_str()),
            ReleaseDescriptor::Docker(_) => None,
        }
    }

    /// When the release was published, as the registry wrote it.
    pub fn published_at(&self) -> (time: &str)
        ensures
            time@ == self@.published_at(),
    {
        match self {
            ReleaseDescriptor::GitHub(info) => info.published_at.as_str(),
            ReleaseDescriptor::Docker(info) => info.published_at.as_str(),
        }
    }

    /// The page of the release.
    pub fn url(&self) -> (url: &str)
        ensures
            url@ == self@.url(),
    {
        match self {
            ReleaseDescriptor::GitHub(info) => info.html_url.as_str(),
            ReleaseDescriptor::Docker(info) => info.html_url.as_str(),
        }
    }

    /// The record to write to the store once this release was seen.
    pub fn record(&self) -> (record: VersionRecord)
        ensures
            record@ == self@.record(),
    {
        let changelog = match self.changelog() {
            Some(text) => Some(text.to_owned()),
            None => None,
        };
        VersionRecord {
            repo: self.entity().to_owned(),
            version: self.marker().to_owned(),
            changelog,
        }
    }
}

impl Clone for ReleaseDescriptor {
    fn clone(&self) -> (copy: Self)
        ensures
            copy == *self,
    {
        match self {
            ReleaseDescriptor::GitHub(info) => ReleaseDescriptor::GitHub(info.clone()),
            ReleaseDescriptor::Docker(info) => ReleaseDescriptor::Docker(info.clone()),
        }
    }
}

} // verus!
