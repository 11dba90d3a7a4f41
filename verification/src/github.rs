//! The GitHub connector: where the latest release of a repository is asked
//! for, and what is made of the answers.

use crate::models::{GithubRelease, GithubReleaseInfo, GithubReleaseInfoView, GithubReleaseView};
use crate::text::{eq_ignoring_case, same_ignoring_case};
use crate::wire::{header_views, Header, HeaderView};
use vstd::prelude::*;
use vstd::string::*;

verus! {

/// Where the latest release of `repo` is asked for.
pub open spec fn latest_release_url(repo: Seq<char>) -> Seq<char> {
    "https://api.github.com/repos/"@ + repo + "/releases/latest"@
}

/// Where the list of the releases of `repo` is asked for.
pub open spec fn releases_url(repo: Seq<char>) -> Seq<char> {
    "https://api.github.com/repos/"@ + repo + "/releases"@
}

/// Whether one of `headers` is named `name`. The case of letters does not
/// count in the name of a header.
pub open spec fn has_header(headers: Seq<HeaderView>, name: Seq<char>) -> bool {
    exists|i: int|
        0 <= i < headers.len() && same_ignoring_case((#[trigger] headers[i]).name, name)
}

/// The headers of a request to the GitHub API: those given, and a
/// `User-Agent` where none is among them.
pub open spec fn with_user_agent(headers: Seq<HeaderView>) -> Seq<HeaderView> {
    if has_header(headers, "User-Agent"@) {
        headers
    } else {
        headers.push(HeaderView { name: "User-Agent"@, value: "github-ntfy/1.0"@ })
    }
}

/// The changelog of a repository: the body of the first release of its
/// list. Where the list could not be had, is empty, or its first release has
/// no body, a fixed text stands in.
pub open spec fn changelog_of(releases: Option<Seq<GithubReleaseView>>) -> Seq<char> {
    match releases {
        Some(list) => if list.len() > 0 && list[0].body is Some {
            list[0].body->0
        } else {
            "Changelog not available"@
        },
        None => "Changelog not available"@,
    }
}

/// The descriptor of the latest release of `repo`.
pub open spec fn release_info(
    repo: Seq<char>,
    release: GithubReleaseView,
    changelog: Seq<char>,
) -> GithubReleaseInfoView {
    GithubReleaseInfoView {
        repo,
        name: release.name,
        tag_name: release.tag_name,
        html_url: release.html_url,
        changelog,
        published_at: match release.published_at {
            Some(time) => time,
            None => "Unknown date"@,
        },
    }
}

/// What was fetched for one watched repository.
#[derive(Debug)]
pub struct GithubFetch {
    pub repo: String,
    /// The latest release; `None` where the call failed, was answered with a
    /// status outside the 2xx class, or with something that is no release.
    pub latest: Option<GithubRelease>,
    /// The list of releases from the second call; `None` where that failed.
    pub releases: Option<Vec<GithubRelease>>,
}

impl GithubFetch {
    /// The descriptor that this fetch yields, if it yields one.
    pub open spec fn info(self) -> Option<GithubReleaseInfoView> {
        match self.latest {
            Some(release) => Some(
                release_info(self.repo@, release@, changelog_of(self.releases.deep_view())),
            ),
            None => None,
        }
    }
}

/// The descriptors that a round of fetches yields, in order. A repository
/// whose latest release could not be had is left out; the others are not
/// touched by that.
pub open spec fn collected(fetches: Seq<GithubFetch>) -> Seq<GithubReleaseInfoView>
    decreases fetches.len(),
{
    if fetches.len() == 0 {
        Seq::empty()
    } else {
        match fetches.last().info() {
            Some(info) => collected(fetches.drop_last()).push(info),
            None => collected(fetches.drop_last()),
        }
    }
}

/// The views of a list of descriptors, in order.
pub open spec fn info_views(infos: Seq<GithubReleaseInfo>) -> Seq<GithubReleaseInfoView> {
    Seq::new(infos.len(), |i: int| infos[i]@)
}

/// The address at which the latest release of `repo` is asked for.
pub fn latest_release_address(repo: &str) -> (url: String)
    ensures
        url@ == latest_release_url(repo@),
{
    let mut url = "https://api.github.com/repos/".to_owned();
    url.append(repo);
    url.append("/releases/latest");
    url
}

/// The address at which the list of the releases of `repo` is asked for.
pub fn releases_address(repo: &str) -> (url: String)
    ensures
        url@ == releases_url(repo@),
{
    let mut url = "https://api.github.com/repos/".to_owned();
    url.append(repo);
    url.append("/releases");
    url
}

/// Completes the headers of a request to the GitHub API.
pub fn request_headers(headers: Vec<Header>) -> (complete: Vec<Header>)
    ensures
        header_views(complete@) == with_user_agent(header_views(headers@)),
{
    let mut at: usize = 0;
    while at < headers.len()
        invariant
            at <= headers.len(),
            forall|i: int| 0 <= i < at ==> !same_ignoring_case(headers[i].name@, "User-Agent"@),
        decreases headers.len() - at,
    {
        if eq_ignoring_case(headers[at].name.as_str(), "User-Agent") {
            assert(same_ignoring_case(header_views(headers@)[at as int].name, "User-Agent"@));
            return headers;
        }
        at += 1;
    }
    let mut complete = headers;
    complete.push(Header { name: "User-Agent".to_owned(), value: "github-ntfy/1.0".to_owned() });
    complete
}

/// Picks the changelog out of the list of releases of a repository.
pub fn get_changelog(releases: &Option<Vec<GithubRelease>>) -> (changelog: String)
    ensures
        changelog@ == changelog_of(releases.deep_view()),
{
    if let Some(list) = releases {
        if list.len() > 0 {
            if let Some(body) = &list[0].body {
                return body.clone();
            }
        }
    }
    "Changelog not available".to_owned()
}

/// Turns the answers of one round of fetches into descriptors.
pub fn get_latest_releases(fetches: &Vec<GithubFetch>) -> (releases: Vec<GithubReleaseInfo>)
    ensures
        info_views(releases@) == collected(fetches@),
{
    let mut releases: Vec<GithubReleaseInfo> = Vec::new();
    let mut at: usize = 0;
    while at < fetches.len()
        invariant
            at <= fetches.len(),
            info_views(releases@) == collected(fetches@.take(at as int)),
        decreases fetches.len() - at,
    {
        let fetch = &fetches[at];
        assert(fetches@.take(at + 1).drop_last() == fetches@.take(at as int));
        if let Some(release) = &fetch.latest {
            let changelog = get_changelog(&fetch.releases);
            let published_at = match &release.published_at {
                Some(time) => time.clone(),
                None => "Unknown date".to_owned(),
            };
            let info = GithubReleaseInfo {
                repo: fetch.repo.clone(),
                name: release.name.clone(),
                tag_name: release.tag_name.clone(),
                html_url: release.html_url.clone(),
                changelog,
                published_at,
            };
            releases.push(info);
        }
        at += 1;
    }
    assert(fetches@.take(fetches.len() as int) == fetches@);
    releases
}

} // verus!
