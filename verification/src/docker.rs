//! The Docker Hub connector: where the `latest` tag of an image is asked
//! for, and what is made of the answers.

use crate::models::{DockerReleaseInfo, DockerReleaseInfoView, DockerTag, DockerTagView};
use crate::wire::{is_success_status, status_is_success};
use vstd::prelude::*;
use vstd::string::*;

verus! {

/// Where the `latest` tag of `repo` is asked for.
pub open spec fn latest_tag_url(repo: Seq<char>) -> Seq<char> {
    "https://hub.docker.com/v2/repositories/"@ + repo + "/tags/latest"@
}

/// The page of `repo` on Docker Hub.
pub open spec fn hub_page(repo: Seq<char>) -> Seq<char> {
    "https://hub.docker.com/r/"@ + repo
}

/// The descriptor of the current image of `repo`.
pub open spec fn release_info(repo: Seq<char>, tag: DockerTagView) -> DockerReleaseInfoView {
    DockerReleaseInfoView {
        repo,
        digest: tag.digest,
        html_url: hub_page(repo),
        published_at: tag.last_updated,
    }
}

/// What Docker Hub answered to a login.
#[derive(Debug)]
pub struct LoginAnswer {
    pub status: u16,
    /// The text under `token` in the body, where the body holds one.
    pub token: Option<String>,
}

/// The token that a login gave: the one in the answer where the answer
/// reports success, none otherwise, and none where no answer came.
pub open spec fn token_of(answer: Option<LoginAnswer>) -> Option<Seq<char>> {
    match answer {
        Some(answer) => if status_is_success(answer.status) {
            answer.token.deep_view()
        } else {
            None
        },
        None => None,
    }
}

/// Where a login to Docker Hub is posted.
pub const LOGIN_URL: &'static str = "https://hub.docker.com/v2/users/login";

/// Takes the token out of the answer to a login.
pub fn create_dockerhub_token(answer: Option<LoginAnswer>) -> (token: Option<String>)
    ensures
        token.deep_view() == token_of(answer),
{
    match answer {
        Some(answer) => {
            if is_success_status(answer.status) {
                answer.token
            } else {
                None
            }
        },
        None => None,
    }
}

/// What was fetched for one watched image.
#[derive(Debug)]
pub struct DockerFetch {
    pub repo: String,
    /// The `latest` tag; `None` where the call failed, was answered with a
    /// status outside the 2xx class, or with something that is no tag.
    pub tag: Option<DockerTag>,
}

impl DockerFetch {
    /// The descriptor that this fetch yields, if it yields one.
    pub open spec fn info(self) -> Option<DockerReleaseInfoView> {
        match self.tag {
            Some(tag) => Some(release_info(self.repo@, tag@)),
            None => None,
        }
    }
}

/// The descriptors that a round of fetches yields, in order. An image whose
/// tag could not be had is left out; the others are not touched by that.
pub open spec fn collected(fetches: Seq<DockerFetch>) -> Seq<DockerReleaseInfoView>
    decreases fetches.len(),
{
    if fetches.len() == 0 {
        Seq::empty()
    } else {
        match fetches.last().info() {
            Some(info) => collected(fetches.drop_last()).push(info),
            None => collected(fetches.drop_last()),
        }
    }
}

/// The views of a list of descriptors, in order.
pub open spec fn info_views(infos: Seq<DockerReleaseInfo>) -> Seq<DockerReleaseInfoView> {
    Seq::new(infos.len(), |i: int| infos[i]@)
}

/// The address at which the `latest` tag of `repo` is asked for.
pub fn latest_tag_address(repo: &str) -> (url: String)
    ensures
        url@ == latest_tag_url(repo@),
{
    let mut url = "https://hub.docker.com/v2/repositories/".to_owned();
    url.append(repo);
    url.append("/tags/latest");
    url
}

/// The address of the page of `repo` on Docker Hub.
pub fn hub_page_address(repo: &str) -> (url: String)
    ensures
        url@ == hub_page(repo@),
{
    let mut url = "https://hub.docker.com/r/".to_owned();
    url.append(repo);
    url
}

/// Turns the answers of one round of fetches into descriptors.
pub fn get_latest_docker_releases(fetches: &Vec<DockerFetch>) -> (releases: Vec<DockerReleaseInfo>)
    ensures
        info_views(releases@) == collected(fetches@),
{
    let mut releases: Vec<DockerReleaseInfo> = Vec::new();
    let mut at: usize = 0;
    while at < fetches.len()
        invariant
            at <= fetches.len(),
            info_views(releases@) == collected(fetches@.take(at as int)),
        decreases fetches.len() - at,
    {
        let fetch = &fetches[at];
        assert(fetches@.take(at + 1).drop_last() == fetches@.take(at as int));
        if let Some(tag) = &fetch.tag {
            let info = DockerReleaseInfo {
                repo: fetch.repo.clone(),
                digest: tag.digest.clone(),
                html_url: hub_page_address(fetch.repo.as_str()),
                published_at: tag.last_updated.clone(),
            };
            releases.push(info);
        }
        at += 1;
    }
    assert(fetches@.take(fetches.len() as int) == fetches@);
    releases
}

} // verus!
