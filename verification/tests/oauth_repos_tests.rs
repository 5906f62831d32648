use git_pulse::AuthState;
use git_pulse::PinnedRepos;
use git_pulse::RawRepo;
use git_pulse::TokenPollReply;
use git_pulse::UserDetails;
use git_pulse::auth_token;
use git_pulse::auth_username;
use git_pulse::repo_data_from_raw;
use git_pulse::token_poll_outcome;

fn auth(user: Option<UserDetails>) -> AuthState {
    AuthState { token: "SECRET-REDACTED".to_string(), user }
}

#[test]
fn a_token_reply_hands_the_token_through() {
    let reply = TokenPollReply::Token {
        access_token: "SECRET-REDACTED".to_string(),
        token_type: "bearer".to_string(),
        scope: "repo user".to_string(),
    };
    assert_eq!(token_poll_outcome(reply), Ok("SECRET-REDACTED".to_string()));
}

#[test]
fn slow_down_reads_as_still_waiting() {
    let reply = TokenPollReply::Failure {
        error: "slow_down".to_string(),
        error_description: Some("too fast".to_string()),
        interval: Some(10),
    };
    assert_eq!(
        token_poll_outcome(reply),
        Err("still waiting for authorization".to_string())
    );
}

#[test]
fn other_errors_surface_their_description_or_name() {
    let with_description = TokenPollReply::Failure {
        error: "access_denied".to_string(),
        error_description: Some("the user said no".to_string()),
        interval: None,
    };
    assert_eq!(token_poll_outcome(with_description), Err("the user said no".to_string()));
    let without_description = TokenPollReply::Failure {
        error: "expired_token".to_string(),
        error_description: None,
        interval: None,
    };
    assert_eq!(token_poll_outcome(without_description), Err("expired_token".to_string()));
}

#[test]
fn missing_auth_state_reads_as_not_authenticated() {
    assert_eq!(auth_token(None), Err("not authenticated".to_string()));
    assert_eq!(auth_username(None), Err("not authenticated".to_string()));
}

#[test]
fn stored_auth_state_yields_token_and_name() {
    let a = auth(Some(UserDetails {
        login: "alice".to_string(),
        avatar_url: "https://example.test/a.png".to_string(),
    }));
    assert_eq!(auth_token(Some(a.clone())), Ok("SECRET-REDACTED".to_string()));
    assert_eq!(auth_username(Some(a)), Ok("alice".to_string()));
    assert_eq!(auth_username(Some(auth(None))), Err("no user details".to_string()));
}

#[test]
fn repo_normalization_fills_the_documented_defaults() {
    let raw = RawRepo {
        name: "widgets".to_string(),
        full_name: Some("acme/widgets".to_string()),
        description: None,
        created_at: Some("2020-01-01T00:00:00+00:00".to_string()),
        updated_at: Some("2024-01-01T00:00:00+00:00".to_string()),
        language: None,
        stargazers_count: Some(7),
        fork: None,
        visibility: None,
    };
    let r = repo_data_from_raw(raw);
    assert_eq!(r.name, "widgets");
    assert_eq!(r.full_name, "acme/widgets");
    assert_eq!(r.description, None);
    assert_eq!(r.stargazers_count, 7);
    assert!(!r.fork);
    assert_eq!(r.visibility, "private");
}

#[test]
fn repo_normalization_keeps_present_values() {
    let raw = RawRepo {
        name: "widgets".to_string(),
        full_name: Some("acme/widgets".to_string()),
        description: Some("a repo".to_string()),
        created_at: Some("c".to_string()),
        updated_at: Some("u".to_string()),
        language: Some("Rust".to_string()),
        stargazers_count: Some(1),
        fork: Some(true),
        visibility: Some("public".to_string()),
    };
    let r = repo_data_from_raw(raw);
    assert_eq!(r.language, Some("Rust".to_string()));
    assert!(r.fork);
    assert_eq!(r.visibility, "public");
    assert_eq!(r.created_at, "c");
    assert_eq!(r.updated_at, "u");
}

#[test]
fn pinned_repos_round_trip() {
    let pinned = PinnedRepos::new(vec!["acme/widgets".to_string(), "acme/tools".to_string()]);
    assert_eq!(
        pinned.into_repos(),
        vec!["acme/widgets".to_string(), "acme/tools".to_string()]
    );
    assert_eq!(PinnedRepos::default().into_repos(), Vec::<String>::new());
}
