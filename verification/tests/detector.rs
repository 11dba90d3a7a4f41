use github_ntfy::config::Config;
use github_ntfy::database::{is_new_version, update_version, StoreError, VersionRecord, VersionStore};
use github_ntfy::detector::{classify, commit, observe, pending_write, Classification};
use github_ntfy::dispatcher::{announce, announce_all, enabled_channels, Channel};
use github_ntfy::models::{DockerReleaseInfo, GithubReleaseInfo};
use github_ntfy::notifications::send_notifications;
use github_ntfy::release::{EntityKind, ReleaseDescriptor};
use github_ntfy::wire::{Body, ChannelKind, Delivery, Json};
use serde_json::Value;

fn hello_world(tag: &str) -> GithubReleaseInfo {
    GithubReleaseInfo {
        repo: "octocat/Hello-World".to_string(),
        name: format!("Release {}", tag),
        tag_name: tag.to_string(),
        html_url: format!("https://github.com/octocat/Hello-World/releases/tag/{}", tag),
        changelog: "- something changed".to_string(),
        published_at: "2024-05-01T10:00:00Z".to_string(),
    }
}

fn nginx(digest: &str) -> DockerReleaseInfo {
    DockerReleaseInfo {
        repo: "library/nginx".to_string(),
        digest: digest.to_string(),
        html_url: "https://hub.docker.com/r/library/nginx".to_string(),
        published_at: "2024-05-02T08:30:00Z".to_string(),
    }
}

fn all_channels() -> Config {
    Config {
        github_token: None,
        docker_username: None,
        docker_password: None,
        docker_token: None,
        ntfy_url: Some("https://ntfy.test/releases".to_string()),
        gotify_url: Some("https://gotify.test".to_string()),
        gotify_token: Some("tok".to_string()),
        discord_webhook_url: Some("https://discord.test/hook".to_string()),
        slack_webhook_url: Some("https://slack.test/hook".to_string()),
        auth: "dXNlcjpwYXNz".to_string(),
        timeout: 3600,
    }
}

fn to_value(json: &Json) -> Value {
    match json {
        Json::Text(text) => Value::String(text.clone()),
        Json::List(items) => Value::Array(items.iter().map(to_value).collect()),
        Json::Object(members) => {
            Value::Object(members.iter().map(|(key, value)| (key.clone(), to_value(value))).collect())
        }
    }
}

fn text_of(d: &Delivery) -> String {
    let value = match &d.body {
        Body::Text(text) => return text.clone(),
        Body::Json(json) => to_value(json),
    };
    let found = match d.channel {
        ChannelKind::Gotify => value["message"].as_str(),
        ChannelKind::Discord => value["content"].as_str(),
        ChannelKind::Slack => value["blocks"][0]["text"]["text"].as_str(),
        ChannelKind::Ntfy => None,
    };
    found.expect("the body holds no text").to_string()
}

fn marker_of(store: &VersionStore, repo: &str) -> Option<String> {
    store.get(repo).map(|r| r.version.clone())
}

#[test]
fn store_starts_empty_and_keeps_what_is_written() {
    let mut store = VersionStore::new();
    assert!(store.get("octocat/Hello-World").is_none());
    store.upsert("octocat/Hello-World", "v1.0.0", Some("first"));
    let record = store.get("octocat/Hello-World").unwrap();
    assert_eq!(record.repo, "octocat/Hello-World");
    assert_eq!(record.version, "v1.0.0");
    assert_eq!(record.changelog.as_deref(), Some("first"));
    assert!(store.get("octocat/hello-world").is_none());
}

#[test]
fn upsert_overwrites_and_leaves_other_entities_alone() {
    let mut store = VersionStore::new();
    store.upsert("a/one", "1", None);
    store.upsert("b/two", "2", Some("two"));
    store.upsert("a/one", "3", Some("three"));
    assert_eq!(marker_of(&store, "a/one").as_deref(), Some("3"));
    assert_eq!(store.get("a/one").unwrap().changelog.as_deref(), Some("three"));
    assert_eq!(marker_of(&store, "b/two").as_deref(), Some("2"));
    assert_eq!(store.get("b/two").unwrap().changelog.as_deref(), Some("two"));
    store.upsert("a/one", "3", Some("three"));
    assert_eq!(marker_of(&store, "a/one").as_deref(), Some("3"));
    assert_eq!(marker_of(&store, "b/two").as_deref(), Some("2"));
}

#[test]
fn store_loaded_from_records_keeps_the_later_of_two() {
    let record = |repo: &str, version: &str| VersionRecord {
        repo: repo.to_string(),
        version: version.to_string(),
        changelog: None,
    };
    let store = VersionStore::from_records(vec![record("a/one", "1"), record("b/two", "2"), record("a/one", "5")]);
    assert_eq!(marker_of(&store, "a/one").as_deref(), Some("5"));
    assert_eq!(marker_of(&store, "b/two").as_deref(), Some("2"));
    assert!(store.get("c/three").is_none());
}

#[test]
fn version_is_new_when_unknown_or_different() {
    let mut store = VersionStore::new();
    assert!(is_new_version(&store, "octocat/Hello-World", "v1.0.0"));
    update_version(&mut store, "octocat/Hello-World", "v1.0.0", Some("notes"));
    assert!(!is_new_version(&store, "octocat/Hello-World", "v1.0.0"));
    assert!(is_new_version(&store, "octocat/Hello-World", "v1.0.1"));
    assert!(is_new_version(&store, "octocat/Hello-World", "V1.0.0"));
    assert!(is_new_version(&store, "octocat/Hello-World", ""));
    assert!(is_new_version(&store, "octocat/Other", "v1.0.0"));
    update_version(&mut store, "octocat/Hello-World", "v1.0.1", None);
    assert!(is_new_version(&store, "octocat/Hello-World", "v1.0.0"));
    assert!(!is_new_version(&store, "octocat/Hello-World", "v1.0.1"));
    assert!(store.get("octocat/Hello-World").unwrap().changelog.is_none());
}

#[test]
fn same_release_is_new_once_and_unchanged_thereafter() {
    let mut store = VersionStore::new();
    let release = ReleaseDescriptor::GitHub(hello_world("v2.0.0"));
    assert_eq!(observe(&mut store, &release), Classification::New);
    assert_eq!(marker_of(&store, "octocat/Hello-World").as_deref(), Some("v2.0.0"));
    for _ in 0..3 {
        assert_eq!(observe(&mut store, &release), Classification::Unchanged);
        assert_eq!(marker_of(&store, "octocat/Hello-World").as_deref(), Some("v2.0.0"));
        assert_eq!(
            store.get("octocat/Hello-World").unwrap().changelog.as_deref(),
            Some("- something changed")
        );
    }
}

#[test]
fn first_observation_is_new_whatever_the_marker() {
    for marker in ["v1.0.0", "", "latest", "sha256:0000", "🦀"] {
        let store = VersionStore::new();
        assert_eq!(classify(&store, &ReleaseDescriptor::GitHub(hello_world(marker))), Classification::New);
        assert_eq!(classify(&store, &ReleaseDescriptor::Docker(nginx(marker))), Classification::New);
    }
    let mut store = VersionStore::new();
    store.upsert("someone/else", "v1.0.0", None);
    assert_eq!(classify(&store, &ReleaseDescriptor::GitHub(hello_world("v1.0.0"))), Classification::New);
}

#[test]
fn classify_leaves_the_store_alone() {
    let mut store = VersionStore::new();
    store.upsert("octocat/Hello-World", "v1.0.0", None);
    assert_eq!(classify(&store, &ReleaseDescriptor::GitHub(hello_world("v1.1.0"))), Classification::New);
    assert_eq!(marker_of(&store, "octocat/Hello-World").as_deref(), Some("v1.0.0"));
    assert_eq!(classify(&store, &ReleaseDescriptor::GitHub(hello_world("v1.0.0"))), Classification::Unchanged);
}

#[test]
fn descriptor_reads_the_fields_of_its_kind() {
    let github = ReleaseDescriptor::GitHub(hello_world("v1.1.0"));
    assert_eq!(github.kind(), EntityKind::GitHubRepo);
    assert_eq!(github.entity(), "octocat/Hello-World");
    assert_eq!(github.marker(), "v1.1.0");
    assert_eq!(github.changelog(), Some("- something changed"));
    assert_eq!(github.title(), Some("Release v1.1.0"));
    assert_eq!(github.published_at(), "2024-05-01T10:00:00Z");
    assert_eq!(github.url(), "https://github.com/octocat/Hello-World/releases/tag/v1.1.0");
    let record = github.record();
    assert_eq!(record.repo, "octocat/Hello-World");
    assert_eq!(record.version, "v1.1.0");
    assert_eq!(record.changelog.as_deref(), Some("- something changed"));
    let docker = ReleaseDescriptor::Docker(nginx("sha256:abc"));
    assert_eq!(docker.kind(), EntityKind::DockerRepo);
    assert_eq!(docker.entity(), "library/nginx");
    assert_eq!(docker.marker(), "sha256:abc");
    assert_eq!(docker.changelog(), None);
    assert_eq!(docker.title(), None);
    assert_eq!(docker.published_at(), "2024-05-02T08:30:00Z");
    assert_eq!(docker.url(), "https://hub.docker.com/r/library/nginx");
    let record = docker.record();
    assert_eq!(record.repo, "library/nginx");
    assert_eq!(record.version, "sha256:abc");
    assert!(record.changelog.is_none());
}

#[test]
fn new_tag_is_detected_recorded_and_announced_on_every_channel() {
    let mut store = VersionStore::new();
    store.upsert("octocat/Hello-World", "v1.0.0", Some("old notes"));
    let channels = enabled_channels(&all_channels());
    let release = ReleaseDescriptor::GitHub(hello_world("v1.1.0"));
    assert_eq!(classify(&store, &release), Classification::New);
    let deliveries = announce(&mut store, &channels, &release, Ok(())).unwrap();
    assert_eq!(marker_of(&store, "octocat/Hello-World").as_deref(), Some("v1.1.0"));
    assert_eq!(deliveries.len(), 4);
    let kinds: Vec<ChannelKind> = deliveries.iter().map(|d| d.channel).collect();
    assert_eq!(kinds, vec![ChannelKind::Ntfy, ChannelKind::Gotify, ChannelKind::Discord, ChannelKind::Slack]);
    for d in &deliveries {
        let text = text_of(d);
        assert!(text.contains("v1.1.0"));
        assert!(text.contains("*For*: Hello-World\n"));
        assert!(!text.contains("*For*: octocat"));
    }
}

#[test]
fn same_tag_again_is_unchanged_and_not_announced() {
    let mut store = VersionStore::new();
    store.upsert("octocat/Hello-World", "v1.0.0", None);
    let config = all_channels();
    let first = send_notifications(vec![hello_world("v1.1.0")], vec![], &config, &mut store);
    assert_eq!(first.len(), 4);
    assert_eq!(marker_of(&store, "octocat/Hello-World").as_deref(), Some("v1.1.0"));
    let release = ReleaseDescriptor::GitHub(hello_world("v1.1.0"));
    assert_eq!(classify(&store, &release), Classification::Unchanged);
    let second = send_notifications(vec![hello_world("v1.1.0")], vec![], &config, &mut store);
    assert!(second.is_empty());
    assert_eq!(marker_of(&store, "octocat/Hello-World").as_deref(), Some("v1.1.0"));
}

#[test]
fn failed_write_means_no_record_and_no_announcement() {
    let mut store = VersionStore::new();
    store.upsert("octocat/Hello-World", "v1.0.0", None);
    let channels = enabled_channels(&all_channels());
    let release = ReleaseDescriptor::GitHub(hello_world("v1.1.0"));
    let failure = StoreError { message: "disk full".to_string() };
    match announce(&mut store, &channels, &release, Err(failure)) {
        Ok(deliveries) => panic!("announced {} times after a failed write", deliveries.len()),
        Err(error) => assert_eq!(error.message, "disk full"),
    }
    assert_eq!(marker_of(&store, "octocat/Hello-World").as_deref(), Some("v1.0.0"));
    assert_eq!(classify(&store, &release), Classification::New);
    let deliveries = announce(&mut store, &channels, &release, Ok(())).unwrap();
    assert_eq!(deliveries.len(), 4);
    assert_eq!(classify(&store, &release), Classification::Unchanged);
}

#[test]
fn commit_follows_the_durable_write() {
    let mut store = VersionStore::new();
    let release = ReleaseDescriptor::Docker(nginx("sha256:abc"));
    let failed = commit(&mut store, &release, Err(StoreError { message: "locked".to_string() }));
    assert_eq!(failed.unwrap_err().message, "locked");
    assert!(store.get("library/nginx").is_none());
    assert!(commit(&mut store, &release, Ok(())).is_ok());
    assert_eq!(marker_of(&store, "library/nginx").as_deref(), Some("sha256:abc"));
    assert!(store.get("library/nginx").unwrap().changelog.is_none());
}

#[test]
fn cycle_announces_only_what_is_new_in_order() {
    let mut store = VersionStore::new();
    store.upsert("octocat/Hello-World", "v1.0.0", None);
    store.upsert("library/nginx", "sha256:old", None);
    let mut config = all_channels();
    config.gotify_token = None;
    config.slack_webhook_url = None;
    let mut other = hello_world("v3.0.0");
    other.repo = "octocat/Spoon-Knife".to_string();
    let deliveries = send_notifications(
        vec![hello_world("v1.0.0"), other],
        vec![nginx("sha256:new")],
        &config,
        &mut store,
    );
    let seen: Vec<(ChannelKind, bool)> =
        deliveries.iter().map(|d| (d.channel, text_of(d).contains("Spoon-Knife"))).collect();
    assert_eq!(
        seen,
        vec![
            (ChannelKind::Ntfy, true),
            (ChannelKind::Discord, true),
            (ChannelKind::Ntfy, false),
            (ChannelKind::Discord, false),
        ]
    );
    assert!(text_of(&deliveries[2]).contains("sha256:new"));
    assert_eq!(marker_of(&store, "octocat/Hello-World").as_deref(), Some("v1.0.0"));
    assert_eq!(marker_of(&store, "octocat/Spoon-Knife").as_deref(), Some("v3.0.0"));
    assert_eq!(marker_of(&store, "library/nginx").as_deref(), Some("sha256:new"));
}

#[test]
fn duplicate_in_one_cycle_is_announced_once() {
    let mut store = VersionStore::new();
    let channels = vec![Channel::Discord { webhook_url: "https://discord.test/hook".to_string() }];
    let releases = vec![
        ReleaseDescriptor::GitHub(hello_world("v1.0.0")),
        ReleaseDescriptor::GitHub(hello_world("v1.0.0")),
        ReleaseDescriptor::GitHub(hello_world("v1.1.0")),
    ];
    let deliveries = announce_all(&mut store, &channels, &releases);
    assert_eq!(deliveries.len(), 2);
    assert!(text_of(&deliveries[0]).contains("v1.0.0"));
    assert!(text_of(&deliveries[1]).contains("v1.1.0"));
    assert_eq!(marker_of(&store, "octocat/Hello-World").as_deref(), Some("v1.1.0"));
}

#[test]
fn without_channels_the_store_is_still_kept() {
    let mut store = VersionStore::new();
    let mut config = all_channels();
    config.ntfy_url = None;
    config.gotify_url = None;
    config.discord_webhook_url = None;
    config.slack_webhook_url = None;
    let deliveries = send_notifications(vec![hello_world("v1.0.0")], vec![nginx("sha256:a")], &config, &mut store);
    assert!(deliveries.is_empty());
    assert_eq!(marker_of(&store, "octocat/Hello-World").as_deref(), Some("v1.0.0"));
    assert_eq!(marker_of(&store, "library/nginx").as_deref(), Some("sha256:a"));
}

#[test]
fn only_a_new_release_has_something_to_write() {
    let mut store = VersionStore::new();
    let release = ReleaseDescriptor::GitHub(hello_world("v1.0.0"));
    let record = pending_write(&store, &release).unwrap();
    assert_eq!(record.repo, "octocat/Hello-World");
    assert_eq!(record.version, "v1.0.0");
    assert_eq!(record.changelog.as_deref(), Some("- something changed"));
    assert!(store.get("octocat/Hello-World").is_none());
    assert!(commit(&mut store, &release, Ok(())).is_ok());
    assert!(pending_write(&store, &release).is_none());
    let image = ReleaseDescriptor::Docker(nginx("sha256:1"));
    let record = pending_write(&store, &image).unwrap();
    assert_eq!(record.repo, "library/nginx");
    assert_eq!(record.version, "sha256:1");
    assert!(record.changelog.is_none());
}

#[test]
fn second_run_of_a_cycle_announces_nothing() {
    let mut store = VersionStore::new();
    store.upsert("library/nginx", "sha256:old", None);
    let config = all_channels();
    let mut other = hello_world("v3.0.0");
    other.repo = "octocat/Spoon-Knife".to_string();
    let github = vec![hello_world("v1.0.0"), other];
    let docker = vec![nginx("sha256:new")];
    let first = send_notifications(github.clone(), docker.clone(), &config, &mut store);
    assert_eq!(first.len(), 12);
    let second = send_notifications(github, docker, &config, &mut store);
    assert!(second.is_empty());
    assert_eq!(marker_of(&store, "octocat/Hello-World").as_deref(), Some("v1.0.0"));
    assert_eq!(marker_of(&store, "octocat/Spoon-Knife").as_deref(), Some("v3.0.0"));
    assert_eq!(marker_of(&store, "library/nginx").as_deref(), Some("sha256:new"));
}

#[test]
fn two_markers_of_one_entity_alternate() {
    let mut store = VersionStore::new();
    let channels = vec![Channel::Discord { webhook_url: "https://discord.test/hook".to_string() }];
    let releases = vec![
        ReleaseDescriptor::GitHub(hello_world("v1.0.0")),
        ReleaseDescriptor::GitHub(hello_world("v2.0.0")),
    ];
    assert_eq!(announce_all(&mut store, &channels, &releases).len(), 2);
    assert_eq!(marker_of(&store, "octocat/Hello-World").as_deref(), Some("v2.0.0"));
    assert_eq!(announce_all(&mut store, &channels, &releases).len(), 2);
    assert_eq!(marker_of(&store, "octocat/Hello-World").as_deref(), Some("v2.0.0"));
}
