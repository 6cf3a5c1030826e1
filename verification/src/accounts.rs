//! Registration and sign-in of users with email and password. Looking a
//! record up and storing it are the caller's part; what is decided from
//! the request and the record is decided here.

use vstd::prelude::*;
use crate::error::{status_of, code_of, AuthError};
use crate::local_token::TokenIssuer;
use crate::models::{ApiError, AuthResponse, SignInRequest, SignUpRequest};
use crate::password::{hash_password, password_matches, verify_password};
use crate::clock::unix_now;

verus! {

/// The status of a successful registration.
pub const SIGNUP_STATUS: u16 = 201;

/// The status of a successful sign-in or refresh.
pub const SIGNIN_STATUS: u16 = 200;

/// What the credential store keeps for one user.
#[derive(Debug, Clone)]
pub struct CredentialRecord {
    /// Generated at registration, never changed.
    pub user_id: String,
    /// Unique among the records.
    pub email: String,
    pub name: String,
    /// The output of the password hasher.
    pub password_hash: String,
    pub created_at: String,
    pub updated_at: String,
}

/// Calls `uuid::Uuid::new_v4` and writes it in the hyphenated form, which
/// has 36 characters. The identifier is random.
#[verifier::external_body]
fn new_user_id() -> (id: String)
    ensures
        id@.len() == 36,
{
    uuid::Uuid::new_v4().hyphenated().to_string()
}

/// Calls `std::time::SystemTime::now`, `chrono::DateTime::from_timestamp`
/// and `DateTime::to_rfc3339`. `None` where the clock stands before the
/// Unix epoch or beyond the dates that `chrono` holds. Nothing is claimed
/// of the text: it differs from call to call.
#[verifier::external_body]
fn timestamp_now() -> (text: Option<String>) {
    let since = std::time::SystemTime::now().duration_since(std::time::UNIX_EPOCH).ok()?;
    let seconds = i64::try_from(since.as_secs()).ok()?;
    Some(chrono::DateTime::from_timestamp(seconds, since.subsec_nanos())?.to_rfc3339())
}

/// The generic message that goes with each error kind.
pub open spec fn generic_message(e: AuthError) -> Seq<char> {
    match e {
        AuthError::BadRequest => "Invalid request"@,
        AuthError::Unauthorized => "Invalid credentials"@,
        AuthError::Conflict => "Email already registered"@,
        AuthError::UpstreamUnavailable => "Upstream service unavailable"@,
        AuthError::Internal => "Internal server error"@,
    }
}

/// Answers an error kind: its status and a body with its code and generic
/// message. The body says nothing beyond the kind.
pub fn error_response(e: AuthError) -> (r: (u16, ApiError))
    ensures
        r.0 == status_of(e),
        r.1.error@ == code_of(e),
        r.1.message@ == generic_message(e),
{
    let message = match e {
        AuthError::BadRequest => "Invalid request",
        AuthError::Unauthorized => "Invalid credentials",
        AuthError::Conflict => "Email already registered",
        AuthError::UpstreamUnavailable => "Upstream service unavailable",
        AuthError::Internal => "Internal server error",
    };
    (e.status(), ApiError::with_code(e.code(), message))
}

/// Whether a registration names an email and a password.
pub open spec fn signup_well_formed(email: Seq<char>, password: Seq<char>) -> bool {
    email.len() > 0 && password.len() > 0
}

/// Why a registration is refused before anything is hashed: `BadRequest`
/// for an empty email or password, `Conflict` for an email that is taken.
pub open spec fn signup_refusal(email: Seq<char>, password: Seq<char>, email_taken: bool) -> Option<
    AuthError,
> {
    if !signup_well_formed(email, password) {
        Some(AuthError::BadRequest)
    } else if email_taken {
        Some(AuthError::Conflict)
    } else {
        None
    }
}

/// Decides on a registration from the request and from whether the store
/// holds a record under its email.
pub fn check_signup(request: &SignUpRequest, email_taken: bool) -> (r: Result<(), AuthError>)
    ensures
        r matches Err(e) ==> signup_refusal(request.email@, request.password@, email_taken)
            == Some(e),
        r is Ok ==> signup_refusal(request.email@, request.password@, email_taken) is None,
{
    if request.email.as_str().is_empty() || request.password.as_str().is_empty() {
        Err(AuthError::BadRequest)
    } else if email_taken {
        Err(AuthError::Conflict)
    } else {
        Ok(())
    }
}

/// What a registration gives for a fresh identifier, the outcome of
/// hashing the password, and the time where the clock gave one: the
/// refusal of the request, else `Internal` where hashing failed or there
/// is no time, else the record to store.
pub open spec fn registered(
    r: Result<CredentialRecord, AuthError>,
    request: &SignUpRequest,
    email_taken: bool,
    user_id: Seq<char>,
    hashed: Result<Seq<char>, AuthError>,
    timestamp: Option<Seq<char>>,
) -> bool {
    match signup_refusal(request.email@, request.password@, email_taken) {
        Some(e) => r matches Err(err) && err == e,
        None => match (hashed, timestamp) {
            (Ok(hash), Some(stamp)) => r matches Ok(record) && record.user_id@ == user_id
                && record.email@ == request.email@ && record.name@ == request.name@
                && record.password_hash@ == hash && record.created_at@ == stamp
                && record.updated_at@ == stamp,
            _ => r matches Err(err) && err == AuthError::Internal,
        },
    }
}

/// The view of the outcome of hashing.
pub open spec fn hashed_view(hashed: Result<String, AuthError>) -> Result<Seq<char>, AuthError> {
    match hashed {
        Ok(hash) => Ok(hash@),
        Err(e) => Err(e),
    }
}

/// Builds the record of a registration from its request, a fresh
/// identifier, the outcome of hashing its password, and the time where
/// the clock gave one.
pub fn register_with(
    request: &SignUpRequest,
    email_taken: bool,
    user_id: String,
    hashed: Result<String, AuthError>,
    timestamp: Option<String>,
) -> (r: Result<CredentialRecord, AuthError>)
    ensures
        registered(
            r,
            request,
            email_taken,
            user_id@,
            hashed_view(hashed),
            timestamp.deep_view(),
        ),
{
    match check_signup(request, email_taken) {
        Err(e) => Err(e),
        Ok(()) => match (hashed, timestamp) {
            (Ok(hash), Some(stamp)) => Ok(
                CredentialRecord {
                    user_id: user_id,
                    email: request.email.clone(),
                    name: request.name.clone(),
                    password_hash: hash,
                    created_at: stamp.clone(),
                    updated_at: stamp,
                },
            ),
            _ => Err(AuthError::Internal),
        },
    }
}

/// Registers a user: refuses a malformed request or a taken email, hashes
/// the password under a fresh salt and builds the record to store, with a
/// fresh identifier of 36 characters and the current time. The stored hash
/// is one of the request's password.
pub fn register(request: &SignUpRequest, email_taken: bool) -> (r: Result<
    CredentialRecord,
    AuthError,
>)
    ensures
        exists|
            user_id: Seq<char>,
            hashed: Result<Seq<char>, AuthError>,
            timestamp: Option<Seq<char>>,
        |
            {
                &&& user_id.len() == 36
                &&& hashed matches Ok(hash) ==> password_matches(request.password@, hash)
                &&& #[trigger] registered(r, request, email_taken, user_id, hashed, timestamp)
            },
{
    match check_signup(request, email_taken) {
        Err(e) => {
            let r = Err(e);
            proof {
                let id = Seq::new(36, |i: int| '0');
                let outcome = Err::<Seq<char>, AuthError>(AuthError::Internal);
                assert(registered(r, request, email_taken, id, outcome, None));
            }
            r
        },
        Ok(()) => {
            let hashed = hash_password(request.password.as_str());
            let user_id = new_user_id();
            let timestamp = timestamp_now();
            let ghost id = user_id@;
            let ghost stamp = timestamp.deep_view();
            let ghost outcome = hashed_view(hashed);
            let r = register_with(request, email_taken, user_id, hashed, timestamp);
            assert(registered(r, request, email_taken, id, outcome, stamp));
            r
        },
    }
}

/// Checks the password of a sign-in against the record found under its
/// email, if any. An unknown email and a wrong password are answered
/// alike.
pub fn check_credentials<'a>(request: &SignInRequest, record: Option<&'a CredentialRecord>) -> (r:
    Result<&'a CredentialRecord, AuthError>)
    ensures
        match record {
            Some(rec) => if password_matches(request.password@, rec.password_hash@) {
                r == Ok::<&CredentialRecord, AuthError>(rec)
            } else {
                r == Err::<&CredentialRecord, AuthError>(AuthError::Unauthorized)
            },
            None => r == Err::<&CredentialRecord, AuthError>(AuthError::Unauthorized),
        },
{
    match record {
        None => Err(AuthError::Unauthorized),
        Some(rec) => if verify_password(request.password.as_str(), rec.password_hash.as_str()) {
            Ok(rec)
        } else {
            Err(AuthError::Unauthorized)
        },
    }
}

/// What a sign-in at second `now` gives: `Unauthorized` for an unknown
/// email as for a wrong password, else what minting for the record's user
/// gives.
pub open spec fn signed_in(
    r: Result<AuthResponse, AuthError>,
    password: Seq<char>,
    record: Option<&CredentialRecord>,
    issuer: &TokenIssuer,
    now: u64,
) -> bool {
    match record {
        Some(rec) if password_matches(password, rec.password_hash@) => issuer.issued(
            r,
            rec.user_id@,
            now,
        ),
        _ => r == Err::<AuthResponse, AuthError>(AuthError::Unauthorized),
    }
}

/// Signs a user in at second `now`: checks the password against the
/// record found under the email and mints the tokens of the record's
/// user.
pub fn sign_in_at(
    request: &SignInRequest,
    record: Option<&CredentialRecord>,
    issuer: &TokenIssuer,
    now: u64,
) -> (r: Result<AuthResponse, AuthError>)
    ensures
        signed_in(r, request.password@, record, issuer, now),
{
    match check_credentials(request, record) {
        Err(_) => Err(AuthError::Unauthorized),
        Ok(rec) => issuer.issue_at(rec.user_id.as_str(), now),
    }
}

/// Signs a user in at the current second.
pub fn sign_in(
    request: &SignInRequest,
    record: Option<&CredentialRecord>,
    issuer: &TokenIssuer,
) -> (r: Result<AuthResponse, AuthError>)
    ensures
        exists|now: u64| #[trigger] signed_in(r, request.password@, record, issuer, now),
{
    let now = unix_now();
    sign_in_at(request, record, issuer, now)
}

/// A sign-in for an email that has no record and a sign-in with a wrong
/// password are answered alike: what is an answer to the one is an answer
/// to the other.
pub proof fn lemma_signin_refusals_alike(
    r: Result<AuthResponse, AuthError>,
    password: Seq<char>,
    record: &CredentialRecord,
    issuer: &TokenIssuer,
    now: u64,
)
    requires
        !password_matches(password, record.password_hash@),
    ensures
        signed_in(r, password, None, issuer, now) <==> signed_in(
            r,
            password,
            Some(record),
            issuer,
            now,
        ),
        signed_in(r, password, None, issuer, now) <==> r == Err::<AuthResponse, AuthError>(
            AuthError::Unauthorized,
        ),
{
}

/// A registration under an email that is taken is refused as a conflict,
/// which is answered with status 409; a malformed one as a bad request,
/// whether or not the email is taken.
pub proof fn lemma_signup_refusals(email: Seq<char>, password: Seq<char>)
    ensures
        signup_well_formed(email, password) ==> signup_refusal(email, password, true) == Some(
            AuthError::Conflict,
        ) && status_of(AuthError::Conflict) == 409,
        signup_well_formed(email, password) ==> signup_refusal(email, password, false) is None,
        !signup_well_formed(email, password) ==> signup_refusal(email, password, true) == Some(
            AuthError::BadRequest,
        ) && signup_refusal(email, password, false) == Some(AuthError::BadRequest),
{
}

} // verus!
