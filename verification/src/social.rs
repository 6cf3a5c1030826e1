//! Social sign-in: what is decided between the verification of a
//! third-party identity token and the federation bridge, and how the
//! bridge's result is answered.

use vstd::prelude::*;
use crate::error::{bridge_message, BridgeError, VerifyError};
use crate::jwks::{outcome_view, remote_outcome, verify_with_document};
use crate::authenticator::key_set_of;
use crate::clock::unix_now;
use crate::models::{ApiError, AppleSignInRequest, CognitoTokenResponse, GoogleSignInRequest};
use crate::token::{ClaimSet, ClaimsView};

verus! {

/// Where Apple publishes its keys.
pub const APPLE_JWKS_URL: &'static str = "https://appleid.apple.com/auth/keys";

/// Where Google publishes its keys.
pub const GOOGLE_JWKS_URL: &'static str = "https://www.googleapis.com/oauth2/v3/certs";

/// The audience that an Apple identity token must name: the app's bundle
/// identifier.
pub const APPLE_AUDIENCE: &'static str = "com.flus.app";

/// The third parties whose identity tokens are accepted.
#[derive(Clone, Copy, Debug, PartialEq, Eq, Structural)]
pub enum SocialProvider {
    Apple,
    Google,
}

/// The audience expected of each provider's tokens; none for Google.
pub open spec fn expected_audience(provider: SocialProvider) -> Option<Seq<char>> {
    match provider {
        SocialProvider::Apple => Some(APPLE_AUDIENCE@),
        SocialProvider::Google => None,
    }
}

/// The message of the 401 for a refused identity token.
pub open spec fn refused_message(provider: SocialProvider) -> Seq<char> {
    match provider {
        SocialProvider::Apple => "Invalid Apple identity token"@,
        SocialProvider::Google => "Invalid Google ID token"@,
    }
}

/// The message of the 400 for an identity token without an email.
pub open spec fn no_email_message(provider: SocialProvider) -> Seq<char> {
    match provider {
        SocialProvider::Apple => "Email not found in Apple token"@,
        SocialProvider::Google => "Email not found in Google token"@,
    }
}

impl SocialProvider {
    /// The address of the provider's key set.
    pub fn jwks_url(&self) -> (r: &'static str)
        ensures
            r@ == match *self {
                SocialProvider::Apple => APPLE_JWKS_URL@,
                SocialProvider::Google => GOOGLE_JWKS_URL@,
            },
    {
        match self {
            SocialProvider::Apple => APPLE_JWKS_URL,
            SocialProvider::Google => GOOGLE_JWKS_URL,
        }
    }

    /// The audience expected of the provider's tokens.
    pub fn audience(&self) -> (r: Option<&'static str>)
        ensures
            r.deep_view() == expected_audience(*self),
    {
        match self {
            SocialProvider::Apple => Some(APPLE_AUDIENCE),
            SocialProvider::Google => None,
        }
    }
}

/// What a social sign-in answers before the bridge is entered: the email
/// to bridge, or the status and message of the refusal.
pub enum EmailOutcome {
    Email(Seq<char>),
    Refused { status: u16, code: Seq<char>, message: Seq<char> },
}

/// The email of a verified identity token: 401 where the token was
/// refused, whatever the reason; 400 where it carries no email.
pub open spec fn email_outcome(
    provider: SocialProvider,
    outcome: Result<ClaimsView, VerifyError>,
) -> EmailOutcome {
    match outcome {
        Err(_) => EmailOutcome::Refused {
            status: 401,
            code: "unauthorized"@,
            message: refused_message(provider),
        },
        Ok(claims) => match claims.email {
            None => EmailOutcome::Refused {
                status: 400,
                code: "bad_request"@,
                message: no_email_message(provider),
            },
            Some(email) => EmailOutcome::Email(email),
        },
    }
}

/// The view of what a social sign-in answers before the bridge.
pub open spec fn email_view(r: Result<String, (u16, ApiError)>) -> EmailOutcome {
    match r {
        Ok(email) => EmailOutcome::Email(email@),
        Err(rejection) => EmailOutcome::Refused {
            status: rejection.0,
            code: rejection.1.error@,
            message: rejection.1.message@,
        },
    }
}

/// Takes the email out of a verified identity token, or answers the
/// refusal.
pub fn identity_email(provider: SocialProvider, outcome: Result<ClaimSet, VerifyError>) -> (r:
    Result<String, (u16, ApiError)>)
    ensures
        email_view(r) == email_outcome(provider, outcome_view(outcome)),
{
    match outcome {
        Err(_) => match provider {
            SocialProvider::Apple => Err(ApiError::unauthorized("Invalid Apple identity token")),
            SocialProvider::Google => Err(ApiError::unauthorized("Invalid Google ID token")),
        },
        Ok(claims) => match claims.email {
            None => match provider {
                SocialProvider::Apple => Err(
                    ApiError::bad_request("Email not found in Apple token"),
                ),
                SocialProvider::Google => Err(
                    ApiError::bad_request("Email not found in Google token"),
                ),
            },
            Some(email) => Ok(email),
        },
    }
}

/// Verifies a provider's identity token against its fetched key-set
/// document at second `now`, with the provider's audience expected. The
/// reason of a refusal is for the log, never for the caller.
pub fn verify_identity_token_at(
    provider: SocialProvider,
    identity_token: &str,
    key_set: Option<&[u8]>,
    now: u64,
) -> (r: Result<ClaimSet, VerifyError>)
    ensures
        outcome_view(r) == remote_outcome(
            identity_token@,
            key_set_of(key_set),
            expected_audience(provider),
            None,
            now,
        ),
{
    verify_with_document(identity_token, key_set, provider.audience(), None, now)
}

/// Verifies a provider's identity token against its fetched key-set
/// document at the current second.
pub fn verify_identity_token(
    provider: SocialProvider,
    identity_token: &str,
    key_set: Option<&[u8]>,
) -> (r: Result<ClaimSet, VerifyError>)
    ensures
        exists|now: u64|
            outcome_view(r) == #[trigger] remote_outcome(
                identity_token@,
                key_set_of(key_set),
                expected_audience(provider),
                None,
                now,
            ),
{
    let now = unix_now();
    verify_identity_token_at(provider, identity_token, key_set, now)
}

/// Verifies a provider's identity token against its fetched key-set
/// document at second `now` and answers the email to bridge.
pub fn social_email_at(
    provider: SocialProvider,
    identity_token: &str,
    key_set: Option<&[u8]>,
    now: u64,
) -> (r: Result<String, (u16, ApiError)>)
    ensures
        email_view(r) == email_outcome(
            provider,
            remote_outcome(
                identity_token@,
                key_set_of(key_set),
                expected_audience(provider),
                None,
                now,
            ),
        ),
{
    identity_email(provider, verify_identity_token_at(provider, identity_token, key_set, now))
}

/// Verifies a provider's identity token against its fetched key-set
/// document at the current second and answers the email to bridge.
pub fn social_email(provider: SocialProvider, identity_token: &str, key_set: Option<&[u8]>) -> (r:
    Result<String, (u16, ApiError)>)
    ensures
        exists|now: u64|
            email_view(r) == email_outcome(
                provider,
                #[trigger] remote_outcome(
                    identity_token@,
                    key_set_of(key_set),
                    expected_audience(provider),
                    None,
                    now,
                ),
            ),
{
    let now = unix_now();
    social_email_at(provider, identity_token, key_set, now)
}

/// Sign-in with an Apple identity token: verifies it against Apple's
/// fetched key set, with the app's bundle identifier as audience, and
/// answers the email to bridge.
pub fn apple_sign_in(body: &AppleSignInRequest, key_set: Option<&[u8]>, now: u64) -> (r: Result<
    String,
    (u16, ApiError),
>)
    ensures
        email_view(r) == email_outcome(
            SocialProvider::Apple,
            remote_outcome(
                body.identity_token@,
                key_set_of(key_set),
                Some(APPLE_AUDIENCE@),
                None,
                now,
            ),
        ),
{
    social_email_at(SocialProvider::Apple, body.identity_token.as_str(), key_set, now)
}

/// Sign-in with a Google identity token: verifies it against Google's
/// fetched key set, with no audience expected, and answers the email to
/// bridge.
pub fn google_sign_in(body: &GoogleSignInRequest, key_set: Option<&[u8]>, now: u64) -> (r: Result<
    String,
    (u16, ApiError),
>)
    ensures
        email_view(r) == email_outcome(
            SocialProvider::Google,
            remote_outcome(body.id_token@, key_set_of(key_set), None, None, now),
        ),
{
    social_email_at(SocialProvider::Google, body.id_token.as_str(), key_set, now)
}

/// Answers the end of a bridged sign-in: the tokens, or a 500 that names
/// the failed step.
pub fn bridge_response(result: Result<CognitoTokenResponse, BridgeError>) -> (r: Result<
    CognitoTokenResponse,
    (u16, ApiError),
>)
    ensures
        match result {
            Ok(tokens) => r == Ok::<CognitoTokenResponse, (u16, ApiError)>(tokens),
            Err(e) => r matches Err(rejection) && rejection.0 == 500 && rejection.1.error@
                == "internal_error"@ && rejection.1.message@ == bridge_message(e),
        },
{
    match result {
        Ok(tokens) => Ok(tokens),
        Err(e) => Err(ApiError::internal(e.message())),
    }
}

/// A refused identity token is answered with the same 401 whatever the
/// reason for the refusal.
pub proof fn lemma_refusal_hides_reason(
    provider: SocialProvider,
    first: VerifyError,
    second: VerifyError,
)
    ensures
        email_outcome(provider, Err(first)) == email_outcome(provider, Err(second)),
{
}

} // verus!
