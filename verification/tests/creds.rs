use aws_pass::client::sts::default_sts_client::{DefaultStsClient, IssuedCredentials};
use aws_pass::client::sts::sts_client::{Credentials, CredsErr};
use aws_pass::creds::{StsLocalMfaCredsProvider, MFA_TOKEN_PROMPT, SESSION_DURATION_SECONDS};

fn credentials(expiration: i64) -> Credentials {
    Credentials {
        access_key_id: "AKIA".to_string(),
        secret_access_key: "secret".to_string(),
        session_token: "token".to_string(),
        expiration,
    }
}

fn provider(cached: Option<Credentials>) -> StsLocalMfaCredsProvider {
    StsLocalMfaCredsProvider::with(".token-serial".to_string(), SESSION_DURATION_SECONDS, cached)
}

fn issued(expiration: &str) -> IssuedCredentials {
    IssuedCredentials {
        access_key_id: "AKIA".to_string(),
        secret_access_key: "secret".to_string(),
        session_token: "token".to_string(),
        expiration: expiration.to_string(),
    }
}

#[test]
fn credential_expiring_now_is_expired() {
    let now = 1_700_000_000;
    assert!(credentials(now).is_expired_at(now));
    assert!(credentials(now - 1).is_expired_at(now));
    assert!(provider(Some(credentials(now))).credentials_at(now).is_none());
}

#[test]
fn credential_expiring_in_one_second_is_valid() {
    let now = 1_700_000_000;
    assert!(!credentials(now + 1).is_expired_at(now));
    let handed = provider(Some(credentials(now + 1))).credentials_at(now).unwrap();
    assert_eq!(handed.access_key_id, "AKIA");
    assert_eq!(handed.secret_access_key, "secret");
    assert_eq!(handed.session_token, "token");
    assert_eq!(handed.expiration, now + 1);
}

#[test]
fn is_expired_reads_the_clock() {
    assert!(credentials(0).is_expired());
    assert!(!credentials(i64::MAX).is_expired());
    assert!(provider(Some(credentials(0))).credentials().is_none());
    assert!(provider(Some(credentials(i64::MAX))).credentials().is_some());
    assert!(provider(None).credentials().is_none());
}

#[test]
fn empty_cache_needs_a_refresh() {
    let fresh = StsLocalMfaCredsProvider::new(".token-serial".to_string());
    assert!(fresh.credentials_at(0).is_none());
}

/// One demand for a credential: the cached one if valid, else a refresh
/// answered with `issue`. Gives the credential and counts the refreshes.
fn demand(
    cache: &mut StsLocalMfaCredsProvider,
    now: i64,
    issue: i64,
    refreshes: &mut u32,
) -> Credentials {
    match cache.credentials_at(now) {
        Some(valid) => valid,
        None => {
            *refreshes += 1;
            cache.refresh(Ok(credentials(issue))).unwrap()
        }
    }
}

#[test]
fn two_demands_in_a_row_refresh_at_most_once() {
    let now = 1_700_000_000;
    let mut refreshes = 0;
    let mut cache = provider(None);
    let first = demand(&mut cache, now, now + 900, &mut refreshes);
    let second = demand(&mut cache, now, now + 900, &mut refreshes);
    assert_eq!(refreshes, 1);
    assert_eq!(first.expiration, now + 900);
    assert_eq!(second.expiration, now + 900);
}

#[test]
fn two_demands_on_a_valid_seed_never_refresh() {
    let now = 1_700_000_000;
    let mut refreshes = 0;
    let mut cache = provider(Some(credentials(now + 60)));
    let first = demand(&mut cache, now, now + 900, &mut refreshes);
    let second = demand(&mut cache, now + 1, now + 900, &mut refreshes);
    assert_eq!(refreshes, 0);
    assert_eq!(first.expiration, now + 60);
    assert_eq!(second.expiration, now + 60);
}

#[test]
fn failed_refresh_keeps_the_cache() {
    let now = 1_700_000_000;
    let mut cache = provider(Some(credentials(now + 60)));
    assert!(matches!(cache.refresh(Err(CredsErr::AuthFailure)), Err(CredsErr::AuthFailure)));
    assert_eq!(cache.credentials_at(now).unwrap().expiration, now + 60);
    assert!(matches!(
        cache.refresh(Err(CredsErr::BackendUnavailable)),
        Err(CredsErr::BackendUnavailable)
    ));
}

#[test]
fn refresh_request_uses_first_trimmed_line_and_900_seconds() {
    let cache = provider(None);
    let request =
        cache.get_creds(Some("  arn:aws:iam::1:mfa/me \r\nsecond line\n"), "123456\n").unwrap();
    assert_eq!(request.duration_seconds, Some(900));
    assert_eq!(request.serial_number.as_deref(), Some("arn:aws:iam::1:mfa/me"));
    assert_eq!(request.token_code.as_deref(), Some("123456"));
    assert_eq!(SESSION_DURATION_SECONDS, 900);
    assert_eq!(MFA_TOKEN_PROMPT, "MFA token code:");
}

#[test]
fn refresh_request_honours_a_configured_duration() {
    let cache = StsLocalMfaCredsProvider::with("f".to_string(), 3600, None);
    let request = cache.get_creds(Some("serial"), "1").unwrap();
    assert_eq!(request.duration_seconds, Some(3600));
}

#[test]
fn missing_or_empty_serial_file_is_a_configuration_error() {
    let cache = provider(None);
    for contents in [None, Some(""), Some("\nserial on second line"), Some("   \n")] {
        match cache.get_creds(contents, "123456") {
            Err(CredsErr::Configuration(file)) => assert_eq!(file, ".token-serial"),
            other => panic!("unexpected: {:?}", other),
        }
    }
}

#[test]
fn session_token_request_carries_what_it_is_given() {
    let request = DefaultStsClient::get_session_token(Some(900), Some("serial"), Some("code"));
    assert_eq!(request.duration_seconds, Some(900));
    assert_eq!(request.serial_number.as_deref(), Some("serial"));
    assert_eq!(request.token_code.as_deref(), Some("code"));
    let bare = DefaultStsClient::get_session_token(None, None, None);
    assert_eq!(bare.duration_seconds, None);
    assert_eq!(bare.serial_number, None);
    assert_eq!(bare.token_code, None);
}

#[test]
fn issued_credentials_parse_their_expiration() {
    let read = DefaultStsClient::credentials(Some(issued("2021-01-01T12:00:00Z"))).unwrap();
    assert_eq!(read.expiration, 1_609_502_400);
    assert_eq!(read.access_key_id, "AKIA");
    assert_eq!(read.secret_access_key, "secret");
    assert_eq!(read.session_token, "token");
    let epoch = DefaultStsClient::credentials(Some(issued("1970-01-01T00:00:01Z"))).unwrap();
    assert_eq!(epoch.expiration, 1);
}

#[test]
fn unreadable_expiration_is_a_service_failure() {
    for text in ["", "tomorrow", "2021-13-01T12:00:00Z", "2021-01-01 12:00:00"] {
        assert!(matches!(
            DefaultStsClient::credentials(Some(issued(text))),
            Err(CredsErr::BackendUnavailable)
        ));
    }
}

#[test]
fn answer_without_credentials_is_a_service_failure() {
    assert!(matches!(DefaultStsClient::credentials(None), Err(CredsErr::BackendUnavailable)));
    assert!(matches!(DefaultStsClient::issued(None, Some(5)), Err(CredsErr::BackendUnavailable)));
    assert!(matches!(
        DefaultStsClient::issued(Some(issued("x")), None),
        Err(CredsErr::BackendUnavailable)
    ));
    assert_eq!(DefaultStsClient::issued(Some(issued("x")), Some(5)).unwrap().expiration, 5);
}

#[test]
fn cloned_credentials_are_equal_field_by_field() {
    let issued = credentials(42);
    let copy = issued.clone();
    assert_eq!(copy.access_key_id, issued.access_key_id);
    assert_eq!(copy.secret_access_key, issued.secret_access_key);
    assert_eq!(copy.session_token, issued.session_token);
    assert_eq!(copy.expiration, 42);
}
