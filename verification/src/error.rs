//! The closed error kinds of the authentication core and how they collapse
//! at its boundary.

use vstd::prelude::*;

verus! {

/// What a caller of the authentication core can be told.
#[derive(Clone, Copy, Debug, PartialEq, Eq, Structural)]
pub enum AuthError {
    /// The input does not have the required shape.
    BadRequest,
    /// Any credential or token failure, with no reason attached.
    Unauthorized,
    /// The email is already registered.
    Conflict,
    /// The key set or the identity provider could not be reached.
    UpstreamUnavailable,
    /// Hashing, signing or storage failed through no fault of the caller.
    Internal,
}

/// Why a token was refused. Kept for logs; never shown to the caller.
#[derive(Clone, Copy, Debug, PartialEq, Eq, Structural)]
pub enum VerifyError {
    /// The token or its header cannot be read.
    BadFormat,
    /// The key set has no usable key under the token's key identifier.
    UnknownKey,
    /// The algorithm is not the asymmetric one expected, or the signature
    /// does not verify.
    SignatureInvalid,
    /// A claim is missing, expired, or not the one expected.
    ClaimInvalid,
    /// The key set could not be fetched or read.
    UpstreamUnavailable,
}

/// The step at which the federation bridge gave up.
#[derive(Clone, Copy, Debug, PartialEq, Eq, Structural)]
pub enum BridgeError {
    /// The account could not be created, for a reason other than its
    /// already existing.
    ProvisioningFailed,
    /// The permanent password could not be set.
    ConfigurationFailed,
    /// The provider refused to start the challenge flow.
    InitiationFailed,
    /// The provider started the flow without a session handle.
    NoSession,
    /// The provider refused the answer to the challenge.
    ChallengeFailed,
    /// The provider accepted the answer but returned no tokens.
    NoAuthResult,
}

/// The HTTP status that goes with each error kind.
pub open spec fn status_of(e: AuthError) -> u16 {
    match e {
        AuthError::BadRequest => 400,
        AuthError::Unauthorized => 401,
        AuthError::Conflict => 409,
        AuthError::UpstreamUnavailable => 502,
        AuthError::Internal => 500,
    }
}

impl AuthError {
    /// The HTTP status that goes with this error kind.
    pub fn status(&self) -> (r: u16)
        ensures
            r == status_of(*self),
    {
        match self {
            AuthError::BadRequest => 400,
            AuthError::Unauthorized => 401,
            AuthError::Conflict => 409,
            AuthError::UpstreamUnavailable => 502,
            AuthError::Internal => 500,
        }
    }

    /// The machine-readable code that goes into a response body.
    pub fn code(&self) -> (r: &'static str)
        ensures
            r@ == code_of(*self),
    {
        match self {
            AuthError::BadRequest => "bad_request",
            AuthError::Unauthorized => "unauthorized",
            AuthError::Conflict => "conflict",
            AuthError::UpstreamUnavailable => "upstream_unavailable",
            AuthError::Internal => "internal_error",
        }
    }
}

/// The machine-readable code of each error kind.
pub open spec fn code_of(e: AuthError) -> Seq<char> {
    match e {
        AuthError::BadRequest => "bad_request"@,
        AuthError::Unauthorized => "unauthorized"@,
        AuthError::Conflict => "conflict"@,
        AuthError::UpstreamUnavailable => "upstream_unavailable"@,
        AuthError::Internal => "internal_error"@,
    }
}

impl VerifyError {
    /// What the caller is told: the same for every reason.
    pub fn collapse(&self) -> (r: AuthError)
        ensures
            r == AuthError::Unauthorized,
    {
        AuthError::Unauthorized
    }
}

/// The log message of each bridge failure.
pub open spec fn bridge_message(e: BridgeError) -> Seq<char> {
    match e {
        BridgeError::ProvisioningFailed => "Failed to create Cognito user"@,
        BridgeError::ConfigurationFailed => "Failed to configure user"@,
        BridgeError::InitiationFailed => "Auth initiation failed"@,
        BridgeError::NoSession => "No session from auth initiation"@,
        BridgeError::ChallengeFailed => "Auth challenge failed"@,
        BridgeError::NoAuthResult => "No authentication result from challenge"@,
    }
}

impl BridgeError {
    /// What the caller is told: an internal failure, whatever the step.
    pub fn collapse(&self) -> (r: AuthError)
        ensures
            r == AuthError::Internal,
    {
        AuthError::Internal
    }

    /// The message that names the failed step.
    pub fn message(&self) -> (r: &'static str)
        ensures
            r@ == bridge_message(*self),
    {
        match self {
            BridgeError::ProvisioningFailed => "Failed to create Cognito user",
            BridgeError::ConfigurationFailed => "Failed to configure user",
            BridgeError::InitiationFailed => "Auth initiation failed",
            BridgeError::NoSession => "No session from auth initiation",
            BridgeError::ChallengeFailed => "Auth challenge failed",
            BridgeError::NoAuthResult => "No authentication result from challenge",
        }
    }
}

} // verus!
