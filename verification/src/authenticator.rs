//! The request authenticator: takes the bearer token out of a request's
//! `Authorization` header, validates it against the one authority that the
//! deployment trusts, and answers with the verified identity or with a
//! uniform 401.

use vstd::prelude::*;
use crate::clock::unix_now;
use crate::error::VerifyError;
use crate::jwks::{
    header_key_id, inspect_token, jwks_json, outcome_view, remote_outcome, token_header,
    verify_with_document, JwkView,
};
use crate::local_token::{
    claims_identity, hs256_accepts, identity_of, local_identity, TokenClass, TokenIssuer,
};
use crate::models::{ApiError, AuthUser, Claims, IdentityView};
use crate::text::{after_prefix, has_prefix, join2, strip_prefix};
use crate::token::{token_claims, ClaimSet, ClaimsView};

verus! {

/// The authority that a deployment validates tokens against. It is chosen
/// once, at start-up; a deployment never has both.
pub enum TokenVerifier {
    /// Tokens minted by this system under its own secret.
    LocalSecret { issuer: TokenIssuer },
    /// Tokens minted by a federated issuer and checked against its
    /// published key set.
    RemoteJwks { issuer_url: String },
}

/// The address under which an issuer publishes its key set.
pub open spec fn key_set_address(issuer_url: Seq<char>) -> Seq<char> {
    issuer_url + "/.well-known/jwks.json"@
}

/// The address under which an issuer publishes its key set.
pub fn jwks_url(issuer_url: &str) -> (r: String)
    ensures
        r@ == key_set_address(issuer_url@),
{
    join2(issuer_url, "/.well-known/jwks.json")
}

/// The identity that a federated session token gives, from what remote
/// verification gave: the token must be an access token of the provider,
/// with subject, issue time and expiry.
pub open spec fn session_identity(outcome: Result<ClaimsView, VerifyError>, now: u64) -> Result<
    IdentityView,
    VerifyError,
> {
    match outcome {
        Err(e) => Err(e),
        Ok(c) => match identity_of(c, c.token_use, "access"@, now) {
            Some(identity) => Ok(identity),
            None => Err(VerifyError::ClaimInvalid),
        },
    }
}

/// Decides on a federated session token from what remote verification
/// gave.
pub fn check_session(outcome: Result<ClaimSet, VerifyError>, now: u64) -> (r: Result<
    Claims,
    VerifyError,
>)
    ensures
        r matches Ok(c) ==> session_identity(outcome_view(outcome), now) == Ok::<
            IdentityView,
            VerifyError,
        >(c@) && c.well_formed(),
        r matches Err(e) ==> session_identity(outcome_view(outcome), now) == Err::<
            IdentityView,
            VerifyError,
        >(e),
{
    match outcome {
        Err(e) => Err(e),
        Ok(c) => {
            let class_claim = match &c.token_use {
                Some(t) => Some(t.clone()),
                None => None,
            };
            match claims_identity(c, &class_claim, "access", now) {
                Some(identity) => Ok(identity),
                None => Err(VerifyError::ClaimInvalid),
            }
        },
    }
}

/// Validates a session token of the federated issuer `issuer_url` against
/// its fetched key-set document, at second `now`. No audience is expected;
/// the token must name `issuer_url` as its issuer.
pub fn validate_session_token(
    token: &str,
    document: Option<&[u8]>,
    issuer_url: &str,
    now: u64,
) -> (r: Result<Claims, VerifyError>)
    ensures
        r matches Ok(c) ==> session_identity(
            remote_outcome(token@, key_set_of(document), None, Some(issuer_url@), now),
            now,
        ) == Ok::<IdentityView, VerifyError>(c@) && c.well_formed(),
        r matches Err(e) ==> session_identity(
            remote_outcome(token@, key_set_of(document), None, Some(issuer_url@), now),
            now,
        ) == Err::<IdentityView, VerifyError>(e),
{
    check_session(verify_with_document(token, document, None, Some(issuer_url), now), now)
}

/// The keys of a fetched document; `None` where the fetch failed or the
/// document cannot be read.
pub open spec fn key_set_of(document: Option<&[u8]>) -> Option<Seq<JwkView>> {
    match document {
        Some(bytes) => jwks_json(bytes@),
        None => None,
    }
}

/// Why a request carries no bearer token.
#[derive(Clone, Copy, Debug, PartialEq, Eq, Structural)]
pub enum BearerError {
    /// There is no `Authorization` header.
    Missing,
    /// The header does not begin with `Bearer `.
    Malformed,
}

/// The bearer token of an `Authorization` header.
pub open spec fn bearer_of(authorization: Option<Seq<char>>) -> Result<Seq<char>, BearerError> {
    match authorization {
        None => Err(BearerError::Missing),
        Some(header) => if has_prefix(header, "Bearer "@) {
            Ok(after_prefix(header, 7))
        } else {
            Err(BearerError::Malformed)
        },
    }
}

/// Takes the bearer token out of the `Authorization` header, before
/// anything is parsed.
pub fn bearer_token<'a>(authorization: Option<&'a str>) -> (r: Result<&'a str, BearerError>)
    ensures
        r matches Ok(token) ==> bearer_of(authorization.deep_view()) == Ok::<
            Seq<char>,
            BearerError,
        >(token@),
        r matches Err(e) ==> bearer_of(authorization.deep_view()) == Err::<Seq<char>, BearerError>(
            e,
        ),
{
    proof {
        reveal_strlit("Bearer ");
    }
    match authorization {
        None => Err(BearerError::Missing),
        Some(header) => match strip_prefix(header, "Bearer ") {
            Some(token) => Ok(token),
            None => Err(BearerError::Malformed),
        },
    }
}

/// Why a request was refused. Kept for logs; the answer to the caller is
/// the same for every reason.
#[derive(Clone, Copy, Debug, PartialEq, Eq, Structural)]
pub enum AuthFailure {
    /// There is no `Authorization` header.
    MissingHeader,
    /// The header does not begin with `Bearer `.
    MalformedHeader,
    /// The token does not validate under the local secret.
    LocalRefused,
    /// The token does not verify against the federated issuer.
    RemoteRefused(VerifyError),
}

/// What a request gives under a verifier at second `now`: the identity of
/// its bearer token, or the first reason to refuse it. The header is
/// looked at before the token.
pub open spec fn auth_outcome(
    verifier: &TokenVerifier,
    authorization: Option<Seq<char>>,
    key_set: Option<Seq<JwkView>>,
    now: u64,
) -> Result<IdentityView, AuthFailure> {
    match bearer_of(authorization) {
        Err(BearerError::Missing) => Err(AuthFailure::MissingHeader),
        Err(BearerError::Malformed) => Err(AuthFailure::MalformedHeader),
        Ok(token) => match verifier {
            TokenVerifier::LocalSecret { issuer } => match local_identity(
                hs256_accepts(token, issuer.key()),
                token_claims(token),
                TokenClass::Access,
                now,
            ) {
                Some(identity) => Ok(identity),
                None => Err(AuthFailure::LocalRefused),
            },
            TokenVerifier::RemoteJwks { issuer_url } => match session_identity(
                remote_outcome(token, key_set, None, Some(issuer_url@), now),
                now,
            ) {
                Ok(identity) => Ok(identity),
                Err(e) => Err(AuthFailure::RemoteRefused(e)),
            },
        },
    }
}

/// The message of the one body that answers every refused request.
pub const UNAUTHORIZED_MESSAGE: &'static str = "Unauthorized";

/// Whether `rejection` is the one answer to a refused request: status 401,
/// code `unauthorized`, and the one message.
pub open spec fn is_uniform_rejection(rejection: (u16, ApiError)) -> bool {
    &&& rejection.0 == 401
    &&& rejection.1.error@ == "unauthorized"@
    &&& rejection.1.message@ == UNAUTHORIZED_MESSAGE@
}

/// The one answer to a refused request.
pub fn unauthorized_answer() -> (r: (u16, ApiError))
    ensures
        is_uniform_rejection(r),
{
    ApiError::unauthorized(UNAUTHORIZED_MESSAGE)
}

/// The address of the key set that a request needs before it can be
/// decided: none for a local verifier, none for a request without a bearer
/// token, and none for a token whose header is refused.
pub open spec fn key_set_needed(
    verifier: &TokenVerifier,
    authorization: Option<Seq<char>>,
) -> Option<Seq<char>> {
    match verifier {
        TokenVerifier::LocalSecret { .. } => None,
        TokenVerifier::RemoteJwks { issuer_url } => match bearer_of(authorization) {
            Err(_) => None,
            Ok(token) => if header_key_id(token_header(token)) is Ok {
                Some(key_set_address(issuer_url@))
            } else {
                None
            },
        },
    }
}

/// Validates requests against one authority.
pub struct RequestAuthenticator {
    pub verifier: TokenVerifier,
}

impl RequestAuthenticator {
    /// An authenticator for tokens minted under `secret`.
    pub fn local(secret: &str) -> (r: Self)
        ensures
            r.verifier matches TokenVerifier::LocalSecret { issuer } && issuer.key()
                == vstd::utf8::encode_utf8(secret@),
    {
        RequestAuthenticator {
            verifier: TokenVerifier::LocalSecret { issuer: TokenIssuer::new(secret) },
        }
    }

    /// An authenticator for session tokens of the federated issuer at
    /// `issuer_url`.
    pub fn remote(issuer_url: &str) -> (r: Self)
        ensures
            r.verifier matches TokenVerifier::RemoteJwks { issuer_url: url } && url@
                == issuer_url@,
    {
        RequestAuthenticator {
            verifier: TokenVerifier::RemoteJwks { issuer_url: issuer_url.to_owned() },
        }
    }

    /// The address of the issuer's key set; `None` where tokens are
    /// validated locally.
    pub fn key_set_url(&self) -> (r: Option<String>)
        ensures
            match self.verifier {
                TokenVerifier::LocalSecret { .. } => r is None,
                TokenVerifier::RemoteJwks { issuer_url } => r.deep_view() == Some(
                    key_set_address(issuer_url@),
                ),
            },
    {
        match &self.verifier {
            TokenVerifier::LocalSecret { .. } => None,
            TokenVerifier::RemoteJwks { issuer_url } => Some(jwks_url(issuer_url.as_str())),
        }
    }

    /// The address of the key set to fetch for a request, decided from its
    /// header alone; `None` where the request is decided without one.
    pub fn key_set_request(&self, authorization: Option<&str>) -> (r: Option<String>)
        ensures
            r.deep_view() == key_set_needed(&self.verifier, authorization.deep_view()),
    {
        match &self.verifier {
            TokenVerifier::LocalSecret { .. } => None,
            TokenVerifier::RemoteJwks { issuer_url } => match bearer_token(authorization) {
                Err(_) => None,
                Ok(token) => match inspect_token(token) {
                    Ok(_) => Some(jwks_url(issuer_url.as_str())),
                    Err(_) => None,
                },
            },
        }
    }

    /// What checking a request at second `now` gives: the verified
    /// identity, which is that of an access token, or the reason of the
    /// refusal.
    pub open spec fn checked(
        &self,
        r: Result<AuthUser, AuthFailure>,
        authorization: Option<Seq<char>>,
        key_set: Option<Seq<JwkView>>,
        now: u64,
    ) -> bool {
        match auth_outcome(&self.verifier, authorization, key_set, now) {
            Err(reason) => r matches Err(e) && e == reason,
            Ok(identity) => {
                &&& r matches Ok(user)
                &&& user.0@ == identity
                &&& user.0.well_formed()
                &&& user.0.token_type@ == "access"@
            },
        }
    }

    /// What authenticating a request at second `now` gives: the verified
    /// identity, which is that of an access token, or the one answer to a
    /// refused request, whatever the reason.
    pub open spec fn authenticated(
        &self,
        r: Result<AuthUser, (u16, ApiError)>,
        authorization: Option<Seq<char>>,
        key_set: Option<Seq<JwkView>>,
        now: u64,
    ) -> bool {
        match auth_outcome(&self.verifier, authorization, key_set, now) {
            Err(_) => r matches Err(rejection) && is_uniform_rejection(rejection),
            Ok(identity) => {
                &&& r matches Ok(user)
                &&& user.0@ == identity
                &&& user.0.well_formed()
                &&& user.0.token_type@ == "access"@
            },
        }
    }

    /// Checks a request at second `now` from its `Authorization` header
    /// and, for a federated issuer, the fetched key-set document. The
    /// reason of a refusal is for the log, never for the caller.
    pub fn check_at(&self, authorization: Option<&str>, key_set: Option<&[u8]>, now: u64) -> (r:
        Result<AuthUser, AuthFailure>)
        ensures
            self.checked(r, authorization.deep_view(), key_set_of(key_set), now),
    {
        let token = match bearer_token(authorization) {
            Err(BearerError::Missing) => {
                return Err(AuthFailure::MissingHeader);
            },
            Err(BearerError::Malformed) => {
                return Err(AuthFailure::MalformedHeader);
            },
            Ok(token) => token,
        };
        match &self.verifier {
            TokenVerifier::LocalSecret { issuer } => match issuer.validate_at(
                token,
                TokenClass::Access,
                now,
            ) {
                Ok(claims) => Ok(AuthUser(claims)),
                Err(_) => Err(AuthFailure::LocalRefused),
            },
            TokenVerifier::RemoteJwks { issuer_url } => match validate_session_token(
                token,
                key_set,
                issuer_url.as_str(),
                now,
            ) {
                Ok(claims) => Ok(AuthUser(claims)),
                Err(e) => Err(AuthFailure::RemoteRefused(e)),
            },
        }
    }

    /// Checks a request at the current second.
    pub fn check(&self, authorization: Option<&str>, key_set: Option<&[u8]>) -> (r: Result<
        AuthUser,
        AuthFailure,
    >)
        ensures
            exists|now: u64| #[trigger]
                self.checked(r, authorization.deep_view(), key_set_of(key_set), now),
    {
        let now = unix_now();
        self.check_at(authorization, key_set, now)
    }

    /// Authenticates a request at second `now`. The answer is the verified
    /// identity, or one and the same 401 for a missing header, a malformed
    /// header and a refused token.
    pub fn authenticate_at(
        &self,
        authorization: Option<&str>,
        key_set: Option<&[u8]>,
        now: u64,
    ) -> (r: Result<AuthUser, (u16, ApiError)>)
        ensures
            self.authenticated(r, authorization.deep_view(), key_set_of(key_set), now),
    {
        match self.check_at(authorization, key_set, now) {
            Ok(user) => Ok(user),
            Err(_) => Err(unauthorized_answer()),
        }
    }

    /// Authenticates a request at the current second.
    pub fn authenticate(&self, authorization: Option<&str>, key_set: Option<&[u8]>) -> (r: Result<
        AuthUser,
        (u16, ApiError),
    >)
        ensures
            exists|now: u64| #[trigger]
                self.authenticated(r, authorization.deep_view(), key_set_of(key_set), now),
    {
        let now = unix_now();
        self.authenticate_at(authorization, key_set, now)
    }
}

/// Every refused request is answered with the same status, code and
/// message: neither the header, nor the token, nor the verifier, nor the
/// reason of the refusal reaches the caller.
pub proof fn lemma_rejection_is_uniform(
    first: &RequestAuthenticator,
    first_answer: Result<AuthUser, (u16, ApiError)>,
    first_authorization: Option<Seq<char>>,
    first_key_set: Option<Seq<JwkView>>,
    first_now: u64,
    second: &RequestAuthenticator,
    second_answer: Result<AuthUser, (u16, ApiError)>,
    second_authorization: Option<Seq<char>>,
    second_key_set: Option<Seq<JwkView>>,
    second_now: u64,
)
    requires
        first.authenticated(first_answer, first_authorization, first_key_set, first_now),
        second.authenticated(second_answer, second_authorization, second_key_set, second_now),
        first_answer is Err,
        second_answer is Err,
    ensures
        first_answer->Err_0.0 == second_answer->Err_0.0,
        first_answer->Err_0.1.error@ == second_answer->Err_0.1.error@,
        first_answer->Err_0.1.message@ == second_answer->Err_0.1.message@,
        first_answer->Err_0.0 == 401,
{
}

/// A request is let through only with a bearer token that gives an
/// identity under the verifier.
pub proof fn lemma_let_through_only_verified(
    authenticator: &RequestAuthenticator,
    answer: Result<AuthUser, (u16, ApiError)>,
    authorization: Option<Seq<char>>,
    key_set: Option<Seq<JwkView>>,
    now: u64,
)
    requires
        authenticator.authenticated(answer, authorization, key_set, now),
        answer is Ok,
    ensures
        bearer_of(authorization) is Ok,
        auth_outcome(&authenticator.verifier, authorization, key_set, now) == Ok::<
            IdentityView,
            AuthFailure,
        >(answer->Ok_0.0@),
{
}

/// A request for which no key set is asked is decided the same whatever
/// key set is handed in: a missing or malformed header and a refused token
/// header cost no fetch.
pub proof fn lemma_no_fetch_needed(
    verifier: &TokenVerifier,
    authorization: Option<Seq<char>>,
    first: Option<Seq<JwkView>>,
    second: Option<Seq<JwkView>>,
    now: u64,
)
    requires
        key_set_needed(verifier, authorization) is None,
    ensures
        auth_outcome(verifier, authorization, first, now) == auth_outcome(
            verifier,
            authorization,
            second,
            now,
        ),
        auth_outcome(verifier, authorization, first, now) is Err || verifier is LocalSecret,
{
}

} // verus!
