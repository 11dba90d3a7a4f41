use github_ntfy::auth::{
    bearer_token, check_access, create_session, create_user, generate_session_token, is_configured, new_user,
    password_accepted, should_create_admin, to_hex, verify_password, Access, SESSION_LIFETIME,
};
use github_ntfy::models::{AppSettings, Session, Timestamp, User};

fn at(seconds: i64, nanoseconds: u32) -> Timestamp {
    Timestamp { seconds, nanoseconds }
}

fn settings(ntfy: bool, gotify: bool, discord: bool, slack: bool) -> AppSettings {
    let url = |on: bool| if on { Some("https://service.test".to_string()) } else { None };
    AppSettings {
        id: Some(1),
        ntfy_url: url(ntfy),
        github_token: Some("ghp".to_string()),
        docker_username: None,
        docker_password: None,
        gotify_url: url(gotify),
        gotify_token: Some("tok".to_string()),
        discord_webhook_url: url(discord),
        slack_webhook_url: url(slack),
        check_interval: None,
        auth: None,
        last_updated: at(0, 0),
    }
}

#[test]
fn bearer_prefix_is_stripped() {
    assert_eq!(bearer_token("Bearer abc123"), "abc123");
    assert_eq!(bearer_token("abc123"), "abc123");
    assert_eq!(bearer_token("Bearer "), "");
    assert_eq!(bearer_token("Bearer"), "Bearer");
    assert_eq!(bearer_token("bearer abc123"), "bearer abc123");
    assert_eq!(bearer_token("Bearer Bearer x"), "Bearer x");
    assert_eq!(bearer_token(""), "");
    assert_eq!(bearer_token("Bearer é🦀"), "é🦀");
    assert_eq!(bearer_token("ééééééé tail"), "ééééééé tail");
}

#[test]
fn bytes_are_written_in_lower_case_hexadecimal() {
    assert_eq!(to_hex(&vec![]), "");
    assert_eq!(to_hex(&vec![0]), "00");
    assert_eq!(to_hex(&vec![0x0f, 0xa0, 0xff, 0x10, 0x9c]), "0fa0ff109c");
    let all: Vec<u8> = (0..=255).collect();
    let text = to_hex(&all);
    assert_eq!(text.len(), 512);
    assert!(text.starts_with("000102030405060708090a0b0c0d0e0f10"));
    assert!(text.ends_with("fdfeff"));
}

#[test]
fn session_token_is_64_hex_digits() {
    let token = generate_session_token();
    assert_eq!(token.len(), 64);
    assert!(token.chars().all(|c| c.is_ascii_digit() || ('a'..='f').contains(&c)));
    let other = generate_session_token();
    assert_ne!(token, other);
}

#[test]
fn session_lasts_seven_days() {
    assert_eq!(SESSION_LIFETIME, 7 * 24 * 60 * 60);
    let session = create_session(42, at(1_700_000_000, 5)).unwrap();
    assert_eq!(session.user_id, 42);
    assert_eq!(session.expires_at, at(1_700_604_800, 5));
    assert_eq!(session.token.len(), 64);
    assert!(create_session(1, at(i64::MAX, 0)).is_none());
    assert!(create_session(1, at(i64::MAX - 604_799, 0)).is_none());
    assert_eq!(create_session(1, at(i64::MAX - 604_800, 0)).unwrap().expires_at, at(i64::MAX, 0));
}

#[test]
fn access_ends_when_the_session_expires() {
    let session = Session { token: "t".to_string(), user_id: 1, expires_at: at(1000, 500) };
    assert_eq!(check_access(Some(&session), &at(999, 999_999_999)), Access::Granted);
    assert_eq!(check_access(Some(&session), &at(1000, 499)), Access::Granted);
    assert_eq!(check_access(Some(&session), &at(1000, 500)), Access::Granted);
    assert_eq!(check_access(Some(&session), &at(1000, 501)), Access::Expired);
    assert_eq!(check_access(Some(&session), &at(1001, 0)), Access::Expired);
    assert_eq!(check_access(None, &at(0, 0)), Access::Denied);
}

#[test]
fn timestamps_are_ordered_by_seconds_then_nanoseconds() {
    assert!(at(1, 0).is_before(&at(2, 0)));
    assert!(at(1, 999).is_before(&at(2, 0)));
    assert!(at(1, 1).is_before(&at(1, 2)));
    assert!(!at(1, 2).is_before(&at(1, 2)));
    assert!(!at(2, 0).is_before(&at(1, 999)));
    assert!(at(-5, 0).is_before(&at(0, 0)));
}

#[test]
fn password_is_checked_against_the_stored_hash() {
    let account = create_user("admin", "correct horse", true, at(1_700_000_000, 0)).unwrap();
    assert_eq!(account.username, "admin");
    assert!(account.is_admin);
    assert_eq!(account.created_at, at(1_700_000_000, 0));
    assert_ne!(account.password_hash, "correct horse");
    assert!(account.password_hash.starts_with("$2"));
    let user = User {
        id: 1,
        username: account.username.clone(),
        password_hash: account.password_hash.clone(),
        is_admin: true,
        created_at: account.created_at,
    };
    assert!(verify_password(Some(&user), "correct horse"));
    assert!(!verify_password(Some(&user), "Correct horse"));
    assert!(!verify_password(Some(&user), ""));
    assert!(!verify_password(None, "correct horse"));
}

#[test]
fn known_hash_is_verified() {
    let user = User {
        id: 7,
        username: "x".to_string(),
        password_hash: "$2a$04$UuTkLRZZ6QofpDOlMz32MuuxEHA43WOemOYHPz6.SjsVsyO1tDU96".to_string(),
        is_admin: false,
        created_at: at(0, 0),
    };
    assert!(verify_password(Some(&user), "password"));
    assert!(!verify_password(Some(&user), "passw0rd"));
    assert!(!verify_password(Some(&user), "$2a$04$UuTkLRZZ6QofpDOlMz32MuuxEHA43WOemOYHPz6.SjsVsyO1tDU96"));
}

#[test]
fn unreadable_hash_lets_nobody_in() {
    let user = |hash: &str| User {
        id: 1,
        username: "u".to_string(),
        password_hash: hash.to_string(),
        is_admin: false,
        created_at: at(0, 0),
    };
    assert!(!verify_password(Some(&user("")), ""));
    assert!(!verify_password(Some(&user("secret")), "secret"));
    assert!(!verify_password(Some(&user("$2b$12$short")), "secret"));
    assert!(!password_accepted(None));
    assert!(!password_accepted(Some(false)));
    assert!(password_accepted(Some(true)));
}

#[test]
fn account_needs_a_hash() {
    let account = new_user("bob", Ok("$2b$12$hash".to_string()), false, at(5, 6)).unwrap();
    assert_eq!(account.username, "bob");
    assert_eq!(account.password_hash, "$2b$12$hash");
    assert!(!account.is_admin);
    assert_eq!(account.created_at, at(5, 6));
    let error = new_user("bob", Err("no entropy".to_string()), false, at(5, 6)).unwrap_err();
    assert_eq!(error.message, "no entropy");
}

#[test]
fn installation_is_configured_with_admin_and_service() {
    let with_ntfy = settings(true, false, false, false);
    let status = is_configured(1, Some(&with_ntfy));
    assert!(status.configured && status.admin_exists && status.settings_exist);
    let status = is_configured(0, Some(&with_ntfy));
    assert!(!status.configured && !status.admin_exists && status.settings_exist);
    let none = settings(false, false, false, false);
    let status = is_configured(3, Some(&none));
    assert!(!status.configured && status.admin_exists && !status.settings_exist);
    let status = is_configured(3, None);
    assert!(!status.configured && status.admin_exists && !status.settings_exist);
    assert!(is_configured(1, Some(&settings(false, true, false, false))).configured);
    assert!(is_configured(1, Some(&settings(false, false, true, false))).configured);
    assert!(is_configured(1, Some(&settings(false, false, false, true))).configured);
    assert!(!is_configured(-1, Some(&with_ntfy)).admin_exists);
}

#[test]
fn first_admin_is_created_only_when_named() {
    assert!(should_create_admin(0, Some("admin"), Some("secret")));
    assert!(!should_create_admin(1, Some("admin"), Some("secret")));
    assert!(!should_create_admin(0, Some(""), Some("secret")));
    assert!(!should_create_admin(0, Some("admin"), Some("")));
    assert!(!should_create_admin(0, None, Some("secret")));
    assert!(!should_create_admin(0, Some("admin"), None));
    assert!(!should_create_admin(0, None, None));
}
