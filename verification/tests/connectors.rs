use github_ntfy::config::{Config, DEFAULT_CHECK_INTERVAL};
use github_ntfy::docker::{
    create_dockerhub_token, get_latest_docker_releases, hub_page_address, latest_tag_address, DockerFetch,
    LoginAnswer, LOGIN_URL,
};
use github_ntfy::github::{
    get_changelog, get_latest_releases, latest_release_address, releases_address, request_headers, GithubFetch,
};
use github_ntfy::models::{AppSettings, DockerTag, GithubRelease, Timestamp};
use github_ntfy::poll::{sleep_seconds, PollState, PollTask};
use github_ntfy::wire::Header;

fn github_release(tag: &str, published_at: Option<&str>, body: Option<&str>) -> GithubRelease {
    GithubRelease {
        name: format!("Release {}", tag),
        tag_name: tag.to_string(),
        html_url: format!("https://github.test/{}", tag),
        published_at: published_at.map(str::to_string),
        body: body.map(str::to_string),
    }
}

fn settings() -> AppSettings {
    AppSettings {
        id: Some(1),
        ntfy_url: Some("https://ntfy.test/t".to_string()),
        github_token: Some("ghp_x".to_string()),
        docker_username: Some("user".to_string()),
        docker_password: Some("pass".to_string()),
        gotify_url: None,
        gotify_token: Some("tok".to_string()),
        discord_webhook_url: None,
        slack_webhook_url: Some("https://slack.test/hook".to_string()),
        check_interval: Some(900),
        auth: None,
        last_updated: Timestamp { seconds: 1_700_000_000, nanoseconds: 0 },
    }
}

fn pairs(headers: &[Header]) -> Vec<(String, String)> {
    headers.iter().map(|h| (h.name.clone(), h.value.clone())).collect()
}

#[test]
fn github_addresses() {
    assert_eq!(
        latest_release_address("octocat/Hello-World"),
        "https://api.github.com/repos/octocat/Hello-World/releases/latest"
    );
    assert_eq!(releases_address("octocat/Hello-World"), "https://api.github.com/repos/octocat/Hello-World/releases");
}

#[test]
fn docker_addresses() {
    assert_eq!(latest_tag_address("library/nginx"), "https://hub.docker.com/v2/repositories/library/nginx/tags/latest");
    assert_eq!(hub_page_address("library/nginx"), "https://hub.docker.com/r/library/nginx");
}

#[test]
fn user_agent_is_added_where_missing() {
    let complete = request_headers(vec![]);
    assert_eq!(pairs(&complete), vec![("User-Agent".to_string(), "github-ntfy/1.0".to_string())]);
    let auth = Header { name: "Authorization".to_string(), value: "token x".to_string() };
    let complete = request_headers(vec![auth]);
    assert_eq!(
        pairs(&complete),
        vec![
            ("Authorization".to_string(), "token x".to_string()),
            ("User-Agent".to_string(), "github-ntfy/1.0".to_string()),
        ]
    );
    for name in ["User-Agent", "user-agent", "USER-AGENT", "uSeR-aGeNt"] {
        let own = Header { name: name.to_string(), value: "mine/2.0".to_string() };
        let complete = request_headers(vec![own]);
        assert_eq!(pairs(&complete), vec![(name.to_string(), "mine/2.0".to_string())]);
    }
    let near = Header { name: "User_Agent".to_string(), value: "mine/2.0".to_string() };
    assert_eq!(request_headers(vec![near]).len(), 2);
}

#[test]
fn changelog_is_the_body_of_the_first_release() {
    let list = vec![github_release("v2", None, Some("second")), github_release("v1", None, Some("first"))];
    assert_eq!(get_changelog(&Some(list)), "second");
    let list = vec![github_release("v2", None, None), github_release("v1", None, Some("first"))];
    assert_eq!(get_changelog(&Some(list)), "Changelog not available");
    assert_eq!(get_changelog(&Some(vec![])), "Changelog not available");
    assert_eq!(get_changelog(&None), "Changelog not available");
    assert_eq!(get_changelog(&Some(vec![github_release("v1", None, Some(""))])), "");
}

#[test]
fn failed_fetch_skips_that_repository_only() {
    let fetches = vec![
        GithubFetch {
            repo: "a/one".to_string(),
            latest: Some(github_release("v1", Some("2024-01-01T00:00:00Z"), Some("ignored"))),
            releases: Some(vec![github_release("v1", None, Some("notes of one"))]),
        },
        GithubFetch { repo: "b/two".to_string(), latest: None, releases: Some(vec![]) },
        GithubFetch { repo: "c/three".to_string(), latest: Some(github_release("v3", None, None)), releases: None },
    ];
    let releases = get_latest_releases(&fetches);
    assert_eq!(releases.len(), 2);
    assert_eq!(releases[0].repo, "a/one");
    assert_eq!(releases[0].name, "Release v1");
    assert_eq!(releases[0].tag_name, "v1");
    assert_eq!(releases[0].html_url, "https://github.test/v1");
    assert_eq!(releases[0].changelog, "notes of one");
    assert_eq!(releases[0].published_at, "2024-01-01T00:00:00Z");
    assert_eq!(releases[1].repo, "c/three");
    assert_eq!(releases[1].tag_name, "v3");
    assert_eq!(releases[1].changelog, "Changelog not available");
    assert_eq!(releases[1].published_at, "Unknown date");
    assert!(get_latest_releases(&vec![]).is_empty());
}

#[test]
fn failed_tag_fetch_skips_that_image_only() {
    let tag = |digest: &str| DockerTag { digest: digest.to_string(), last_updated: "2024-05-02T08:30:00Z".to_string() };
    let fetches = vec![
        DockerFetch { repo: "library/nginx".to_string(), tag: None },
        DockerFetch { repo: "library/redis".to_string(), tag: Some(tag("sha256:r")) },
        DockerFetch { repo: "me/app".to_string(), tag: Some(tag("sha256:a")) },
    ];
    let releases = get_latest_docker_releases(&fetches);
    assert_eq!(releases.len(), 2);
    assert_eq!(releases[0].repo, "library/redis");
    assert_eq!(releases[0].digest, "sha256:r");
    assert_eq!(releases[0].html_url, "https://hub.docker.com/r/library/redis");
    assert_eq!(releases[0].published_at, "2024-05-02T08:30:00Z");
    assert_eq!(releases[1].repo, "me/app");
    assert_eq!(releases[1].html_url, "https://hub.docker.com/r/me/app");
}

#[test]
fn config_is_built_from_the_settings() {
    let config = Config::from_database(&settings(), Some("jwt".to_string()), "Y3JlZA==".to_string());
    assert_eq!(config.github_token.as_deref(), Some("ghp_x"));
    assert_eq!(config.docker_username.as_deref(), Some("user"));
    assert_eq!(config.docker_password.as_deref(), Some("pass"));
    assert_eq!(config.docker_token.as_deref(), Some("jwt"));
    assert_eq!(config.ntfy_url.as_deref(), Some("https://ntfy.test/t"));
    assert_eq!(config.gotify_url, None);
    assert_eq!(config.gotify_token.as_deref(), Some("tok"));
    assert_eq!(config.discord_webhook_url, None);
    assert_eq!(config.slack_webhook_url.as_deref(), Some("https://slack.test/hook"));
    assert_eq!(config.auth, "Y3JlZA==");
    assert_eq!(config.timeout, 900);
    let mut no_interval = settings();
    no_interval.check_interval = None;
    let config = Config::from_database(&no_interval, None, String::new());
    assert_eq!(config.timeout, 3600);
    assert_eq!(DEFAULT_CHECK_INTERVAL, 3600);
    assert_eq!(config.docker_token, None);
}

#[test]
fn registry_headers_carry_the_token() {
    let mut config = Config::from_database(&settings(), Some("jwt".to_string()), String::new());
    assert_eq!(pairs(&config.github_headers()), vec![("Authorization".to_string(), "token ghp_x".to_string())]);
    assert_eq!(pairs(&config.docker_headers()), vec![("Authorization".to_string(), "Bearer jwt".to_string())]);
    config.github_token = None;
    config.docker_token = None;
    assert!(config.github_headers().is_empty());
    assert!(config.docker_headers().is_empty());
}

#[test]
fn config_is_incomplete_without_credential_or_service() {
    let mut config = Config::from_database(&settings(), None, "cred".to_string());
    assert!(config.names_a_service());
    assert!(!config.is_incomplete());
    config.auth = String::new();
    assert!(config.is_incomplete());
    config.auth = "cred".to_string();
    config.ntfy_url = None;
    config.slack_webhook_url = None;
    assert!(!config.names_a_service());
    assert!(config.is_incomplete());
    config.gotify_url = Some("https://gotify.test".to_string());
    assert!(config.names_a_service());
    assert!(!config.is_incomplete());
}

#[test]
fn poll_states_form_one_cycle() {
    let start = PollState::start();
    assert_eq!(start, PollState::Idle);
    assert_eq!(start.next(), PollState::Polling);
    assert_eq!(start.next().next(), PollState::Dispatching);
    assert_eq!(start.next().next().next(), PollState::Sleeping);
    assert_eq!(start.next().next().next().next(), PollState::Idle);
    assert_eq!(PollState::Idle.task(60), PollTask::Begin);
    assert_eq!(PollState::Polling.task(60), PollTask::FetchReleases);
    assert_eq!(PollState::Dispatching.task(60), PollTask::Notify);
    assert_eq!(PollState::Sleeping.task(60), PollTask::Sleep(60));
}

#[test]
fn sleep_time_comes_from_the_configuration() {
    let mut config = Config::from_database(&settings(), None, String::new());
    assert_eq!(sleep_seconds(&config), Some(900));
    config.timeout = 0;
    assert_eq!(sleep_seconds(&config), Some(0));
    config.timeout = -1;
    assert_eq!(sleep_seconds(&config), None);
    config.timeout = i64::MAX;
    assert_eq!(sleep_seconds(&config), Some(i64::MAX as u64));
}

#[test]
fn docker_token_needs_a_successful_login() {
    let answer = |status: u16, token: Option<&str>| Some(LoginAnswer { status, token: token.map(str::to_string) });
    assert_eq!(create_dockerhub_token(answer(200, Some("jwt"))).as_deref(), Some("jwt"));
    assert_eq!(create_dockerhub_token(answer(299, Some("jwt"))).as_deref(), Some("jwt"));
    assert_eq!(create_dockerhub_token(answer(200, None)), None);
    assert_eq!(create_dockerhub_token(answer(401, Some("jwt"))), None);
    assert_eq!(create_dockerhub_token(answer(500, None)), None);
    assert_eq!(create_dockerhub_token(None), None);
    assert_eq!(LOGIN_URL, "https://hub.docker.com/v2/users/login");
}
