use ovaflus_backend::error::AuthError;
use ovaflus_backend::local_token::{
    check_local, TokenClass, TokenIssuer, ACCESS_TTL, REFRESH_TTL,
};
use ovaflus_backend::token::{read_claims, ClaimSet};

const NOW: u64 = 1_700_000_000;

fn claim_set(
    sub: Option<&str>,
    class: Option<&str>,
    iat: Option<u64>,
    exp: Option<u64>,
) -> ClaimSet {
    ClaimSet {
        sub: sub.map(String::from),
        email: None,
        token_type: class.map(String::from),
        token_use: None,
        iat,
        exp,
    }
}

#[test]
fn ttl_constants() {
    assert_eq!(ACCESS_TTL, 3600);
    assert_eq!(REFRESH_TTL, 604800);
    assert_eq!(TokenClass::Access.ttl(), 3600);
    assert_eq!(TokenClass::Refresh.ttl(), 604800);
    assert_eq!(TokenClass::Access.name(), "access");
    assert_eq!(TokenClass::Refresh.name(), "refresh");
}

#[test]
fn issued_tokens_carry_their_claims() {
    let issuer = TokenIssuer::new("signing-secret");
    let tokens = issuer.issue_at("user-1", NOW).unwrap();
    assert_eq!(tokens.user_id, "user-1");
    assert_ne!(tokens.access_token, tokens.refresh_token);

    let access = read_claims(&tokens.access_token).unwrap();
    assert_eq!(access.sub.as_deref(), Some("user-1"));
    assert_eq!(access.iat, Some(NOW));
    assert_eq!(access.exp, Some(NOW + 3600));
    assert_eq!(access.token_type.as_deref(), Some("access"));
    assert_eq!(access.email, None);
    assert_eq!(access.token_use, None);

    let refresh = read_claims(&tokens.refresh_token).unwrap();
    assert_eq!(refresh.sub.as_deref(), Some("user-1"));
    assert_eq!(refresh.iat, Some(NOW));
    assert_eq!(refresh.exp, Some(NOW + 604800));
    assert_eq!(refresh.token_type.as_deref(), Some("refresh"));
}

#[test]
fn issued_token_is_three_base64_segments() {
    let issuer = TokenIssuer::new("signing-secret");
    let tokens = issuer.issue_at("user-1", NOW).unwrap();
    let segments: Vec<&str> = tokens.access_token.split('.').collect();
    assert_eq!(segments.len(), 3);
    // {"typ":"JWT","alg":"HS256"}
    assert_eq!(segments[0], "eyJ0eXAiOiJKV1QiLCJhbGciOiJIUzI1NiJ9");
    assert!(!segments[2].is_empty());
    assert_eq!(issuer.issue_at("user-1", NOW).unwrap().access_token, tokens.access_token);
}

#[test]
fn access_token_validates_only_as_access() {
    let issuer = TokenIssuer::new("signing-secret");
    for subject in ["user-1", "", "u@y.com", "\u{fc}ser"] {
        let tokens = issuer.issue_at(subject, NOW).unwrap();
        let claims = issuer.validate_at(&tokens.access_token, TokenClass::Access, NOW).unwrap();
        assert_eq!(claims.sub, subject);
        assert_eq!(claims.iat, NOW as usize);
        assert_eq!(claims.exp, (NOW + 3600) as usize);
        assert_eq!(claims.token_type, "access");
        assert_eq!(
            issuer.validate_at(&tokens.access_token, TokenClass::Refresh, NOW).unwrap_err(),
            AuthError::Unauthorized
        );
        let claims = issuer.validate_at(&tokens.refresh_token, TokenClass::Refresh, NOW).unwrap();
        assert_eq!(claims.token_type, "refresh");
        assert_eq!(claims.exp, (NOW + 604800) as usize);
        assert_eq!(
            issuer.validate_at(&tokens.refresh_token, TokenClass::Access, NOW).unwrap_err(),
            AuthError::Unauthorized
        );
    }
}

#[test]
fn expired_token_is_refused() {
    let issuer = TokenIssuer::new("signing-secret");
    let tokens = issuer.issue_at("user-1", NOW).unwrap();
    assert!(issuer.validate_at(&tokens.access_token, TokenClass::Access, NOW + 3600).is_ok());
    assert_eq!(
        issuer.validate_at(&tokens.access_token, TokenClass::Access, NOW + 3601).unwrap_err(),
        AuthError::Unauthorized
    );
    assert!(issuer.validate_at(&tokens.refresh_token, TokenClass::Refresh, NOW + 604800).is_ok());
    assert_eq!(
        issuer.validate_at(&tokens.refresh_token, TokenClass::Refresh, NOW + 604801).unwrap_err(),
        AuthError::Unauthorized
    );
}

#[test]
fn token_under_another_secret_is_refused() {
    let issuer = TokenIssuer::new("signing-secret");
    let other = TokenIssuer::new("another-secret");
    let tokens = other.issue_at("user-1", NOW).unwrap();
    assert_eq!(
        issuer.validate_at(&tokens.access_token, TokenClass::Access, NOW).unwrap_err(),
        AuthError::Unauthorized
    );
    assert!(other.validate_at(&tokens.access_token, TokenClass::Access, NOW).is_ok());
}

#[test]
fn tampered_or_malformed_token_is_refused() {
    let issuer = TokenIssuer::new("signing-secret");
    let tokens = issuer.issue_at("user-1", NOW).unwrap();
    let refresh = issuer.issue_at("user-1", NOW).unwrap().refresh_token;
    let access_parts: Vec<&str> = tokens.access_token.split('.').collect();
    let refresh_parts: Vec<&str> = refresh.split('.').collect();
    let spliced = format!("{}.{}.{}", access_parts[0], refresh_parts[1], access_parts[2]);
    for token in [spliced.as_str(), "", "abc", "a.b.c", "..", "e30.e30.e30"] {
        assert_eq!(
            issuer.validate_at(token, TokenClass::Access, NOW).unwrap_err(),
            AuthError::Unauthorized
        );
        assert_eq!(
            issuer.validate_at(token, TokenClass::Refresh, NOW).unwrap_err(),
            AuthError::Unauthorized
        );
    }
}

#[test]
fn refresh_mints_a_new_pair_for_the_same_subject() {
    let issuer = TokenIssuer::new("signing-secret");
    let tokens = issuer.issue_at("user-1", NOW).unwrap();
    let later = NOW + 1000;
    let renewed = issuer.refresh_at(&tokens.refresh_token, later).unwrap();
    assert_eq!(renewed.user_id, "user-1");
    let access = issuer.validate_at(&renewed.access_token, TokenClass::Access, later).unwrap();
    assert_eq!(access.sub, "user-1");
    assert_eq!(access.iat, later as usize);
    assert_eq!(access.exp, (later + 3600) as usize);
    let refresh = issuer.validate_at(&renewed.refresh_token, TokenClass::Refresh, later).unwrap();
    assert_eq!(refresh.exp, (later + 604800) as usize);
    assert!(issuer
        .validate_at(&renewed.refresh_token, TokenClass::Refresh, later + 604800)
        .is_ok());
    assert!(issuer
        .validate_at(&renewed.refresh_token, TokenClass::Refresh, later + 604801)
        .is_err());
    // the presented token is not revoked
    assert!(issuer.refresh_at(&tokens.refresh_token, later).is_ok());
}

#[test]
fn refresh_refuses_access_tokens_and_expired_tokens() {
    let issuer = TokenIssuer::new("signing-secret");
    let tokens = issuer.issue_at("user-1", NOW).unwrap();
    assert_eq!(
        issuer.refresh_at(&tokens.access_token, NOW).unwrap_err(),
        AuthError::Unauthorized
    );
    assert_eq!(
        issuer.refresh_at(&tokens.refresh_token, NOW + 604801).unwrap_err(),
        AuthError::Unauthorized
    );
    assert_eq!(issuer.refresh_at("garbage", NOW).unwrap_err(), AuthError::Unauthorized);
}

#[test]
fn issue_refuses_a_time_that_overflows() {
    let issuer = TokenIssuer::new("signing-secret");
    assert_eq!(issuer.issue_at("user-1", u64::MAX).unwrap_err(), AuthError::Internal);
    assert_eq!(issuer.issue_at("user-1", u64::MAX - 604799).unwrap_err(), AuthError::Internal);
    assert!(issuer.issue_at("user-1", u64::MAX - 604800).is_ok());
}

#[test]
fn clock_driven_calls_agree_with_each_other() {
    let issuer = TokenIssuer::new("signing-secret");
    let tokens = issuer.issue("user-9").unwrap();
    let claims = issuer.validate(&tokens.access_token, TokenClass::Access).unwrap();
    assert_eq!(claims.sub, "user-9");
    assert_eq!(claims.exp - claims.iat, 3600);
    assert!(issuer.validate(&tokens.access_token, TokenClass::Refresh).is_err());
    let renewed = issuer.refresh(&tokens.refresh_token).unwrap();
    assert_eq!(renewed.user_id, "user-9");
    assert!(issuer.validate(&renewed.access_token, TokenClass::Access).is_ok());
    let refresh = issuer.validate(&renewed.refresh_token, TokenClass::Refresh).unwrap();
    assert_eq!(refresh.exp - refresh.iat, 604800);
}

#[test]
fn check_local_needs_every_claim() {
    let full = || claim_set(Some("u"), Some("access"), Some(10), Some(20));
    assert!(check_local(true, Some(full()), TokenClass::Access, 15).is_ok());
    assert!(check_local(true, Some(full()), TokenClass::Access, 20).is_ok());
    let access = TokenClass::Access;
    let refused = [
        check_local(false, Some(full()), access, 15),
        check_local(true, None, access, 15),
        check_local(true, Some(full()), TokenClass::Refresh, 15),
        check_local(true, Some(full()), access, 21),
        check_local(true, Some(claim_set(None, Some("access"), Some(10), Some(20))), access, 15),
        check_local(true, Some(claim_set(Some("u"), None, Some(10), Some(20))), access, 15),
        check_local(true, Some(claim_set(Some("u"), Some("access"), None, Some(20))), access, 15),
        check_local(true, Some(claim_set(Some("u"), Some("access"), Some(10), None)), access, 15),
        check_local(true, Some(claim_set(Some("u"), Some("access"), Some(20), Some(20))), access, 15),
        check_local(true, Some(claim_set(Some("u"), Some("id"), Some(10), Some(20))), access, 15),
    ];
    for r in refused {
        assert_eq!(r.unwrap_err(), AuthError::Unauthorized);
    }
}
