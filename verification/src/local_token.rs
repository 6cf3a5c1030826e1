//! The local token issuer: mints and validates the access and refresh
//! tokens of users who registered with email and password. Tokens are
//! signed with HMAC-SHA256 under one secret.

use vstd::prelude::*;
use vstd::utf8::*;
use crate::clock::unix_now;
use crate::error::AuthError;
use crate::models::{AuthResponse, Claims, IdentityView};
use crate::text::holds_text;
use crate::token::{read_claims, token_claims, ClaimSet, ClaimsView};

verus! {

/// Seconds for which an access token is valid.
pub const ACCESS_TTL: u64 = 3600;

/// Seconds for which a refresh token is valid: seven days.
pub const REFRESH_TTL: u64 = 604800;

/// The two classes of token.
#[derive(Clone, Copy, Debug, PartialEq, Eq, Structural)]
pub enum TokenClass {
    /// Short-lived, presented with every API call.
    Access,
    /// Long-lived, presented only to mint new tokens.
    Refresh,
}

/// The value of the `token_type` claim for each class.
pub open spec fn class_name(class: TokenClass) -> Seq<char> {
    match class {
        TokenClass::Access => "access"@,
        TokenClass::Refresh => "refresh"@,
    }
}

/// Seconds for which a token of each class is valid.
pub open spec fn lifetime(class: TokenClass) -> nat {
    match class {
        TokenClass::Access => ACCESS_TTL as nat,
        TokenClass::Refresh => REFRESH_TTL as nat,
    }
}

impl TokenClass {
    /// The value of the `token_type` claim for this class.
    pub fn name(&self) -> (r: &'static str)
        ensures
            r@ == class_name(*self),
    {
        match self {
            TokenClass::Access => "access",
            TokenClass::Refresh => "refresh",
        }
    }

    /// Seconds for which a token of this class is valid.
    pub fn ttl(&self) -> (r: u64)
        ensures
            r == lifetime(*self),
    {
        match self {
            TokenClass::Access => ACCESS_TTL,
            TokenClass::Refresh => REFRESH_TTL,
        }
    }
}

/// The two class names differ.
pub proof fn lemma_class_names_differ()
    ensures
        class_name(TokenClass::Access) != class_name(TokenClass::Refresh),
{
    reveal_strlit("access");
    reveal_strlit("refresh");
    assert("access"@.len() == 6);
    assert("refresh"@.len() == 7);
}

/// Whether `jsonwebtoken` accepts `token` as signed with HS256 under
/// `secret`, with no claim validated.
pub uninterp spec fn hs256_accepts(token: Seq<char>, secret: Seq<u8>) -> bool;

/// The token that `jsonwebtoken` mints with HS256 under `secret` for the
/// four claims; `None` where it fails.
pub uninterp spec fn hs256_token(
    sub: Seq<char>,
    iat: u64,
    exp: u64,
    token_type: Seq<char>,
    secret: Seq<u8>,
) -> Option<Seq<char>>;

/// Calls `jsonwebtoken::decode` with `DecodingKey::from_secret` and a
/// `Validation` for HS256 in which expiry, audience and required claims are
/// switched off, so that the answer depends on token and secret alone: the
/// token must have three segments, a header that names HS256, a signature
/// that matches, and a JSON payload.
#[verifier::external_body]
fn hs256_verify(token: &str, secret: &[u8]) -> (accepted: bool)
    ensures
        accepted == hs256_accepts(token@, secret@),
{
    let mut rules = jsonwebtoken::Validation::new(jsonwebtoken::Algorithm::HS256);
    rules.validate_exp = false;
    rules.validate_aud = false;
    rules.required_spec_claims.clear();
    let key = jsonwebtoken::DecodingKey::from_secret(secret);
    jsonwebtoken::decode::<serde_json::Value>(token, &key, &rules).is_ok()
}

/// The claim set that a token minted for these four claims carries.
pub open spec fn minted_claims(
    sub: Seq<char>,
    iat: u64,
    exp: u64,
    token_type: Seq<char>,
) -> ClaimsView {
    ClaimsView {
        sub: Some(sub),
        email: None,
        token_type: Some(token_type),
        token_use: None,
        iat: Some(iat),
        exp: Some(exp),
    }
}

/// Calls `jsonwebtoken::encode` with the default header (HS256, type JWT),
/// `EncodingKey::from_secret` and a JSON object of the four claims. The
/// token is a function of claims and secret. `encode` joins the base64 of
/// header, claims and signature with dots, so `decode` under the same
/// secret accepts the token, and its payload reads back as the four claims.
#[verifier::external_body]
fn hs256_sign(sub: &str, iat: u64, exp: u64, token_type: &str, secret: &[u8]) -> (r: Option<String>)
    ensures
        r.deep_view() == hs256_token(sub@, iat, exp, token_type@, secret@),
        r matches Some(token) ==> {
            &&& hs256_accepts(token@, secret@)
            &&& token_claims(token@) == Some(minted_claims(sub@, iat, exp, token_type@))
        },
{
    let mut body = serde_json::Map::new();
    body.insert("sub".to_string(), sub.into());
    body.insert("iat".to_string(), iat.into());
    body.insert("exp".to_string(), exp.into());
    body.insert("token_type".to_string(), token_type.into());
    let key = jsonwebtoken::EncodingKey::from_secret(secret);
    jsonwebtoken::encode(&jsonwebtoken::Header::default(), &body, &key).ok()
}

/// The identity that a claim set gives at second `now`, where the claim
/// that names the class is `class_claim` and must be `expected`. `None`
/// unless subject, issue time and expiry are present, the class is the one
/// expected, the expiry is not in the past and lies after the issue time.
pub open spec fn identity_of(
    claims: ClaimsView,
    class_claim: Option<Seq<char>>,
    expected: Seq<char>,
    now: u64,
) -> Option<IdentityView> {
    if claims.sub is Some && claims.iat is Some && claims.exp is Some && class_claim == Some(
        expected,
    ) && claims.exp->0 >= now && claims.exp->0 > claims.iat->0 && claims.exp->0 <= usize::MAX {
        Some(
            IdentityView {
                sub: claims.sub->0,
                exp: claims.exp->0 as nat,
                iat: claims.iat->0 as nat,
                token_type: expected,
            },
        )
    } else {
        None
    }
}

/// The identity that a local token gives: `None` unless the signature was
/// accepted and the claims give an identity of the expected class.
pub open spec fn local_identity(
    accepted: bool,
    claims: Option<ClaimsView>,
    expected: TokenClass,
    now: u64,
) -> Option<IdentityView> {
    match claims {
        Some(c) if accepted => identity_of(c, c.token_type, class_name(expected), now),
        _ => None,
    }
}

/// Builds the identity out of a claim set, or refuses it.
pub fn claims_identity(
    claims: ClaimSet,
    class_claim: &Option<String>,
    expected: &str,
    now: u64,
) -> (r: Option<Claims>)
    ensures
        r is Some <==> identity_of(claims@, class_claim.deep_view(), expected@, now) is Some,
        r matches Some(c) ==> Some(c@) == identity_of(
            claims@,
            class_claim.deep_view(),
            expected@,
            now,
        ),
{
    if !holds_text(class_claim, expected) {
        return None;
    }
    let ClaimSet { sub, email: _, token_type: _, token_use: _, iat, exp } = claims;
    match (sub, iat, exp) {
        (Some(sub), Some(iat), Some(exp)) => {
            if exp >= now && exp > iat && exp <= usize::MAX as u64 {
                Some(
                    Claims {
                        sub: sub,
                        exp: exp as usize,
                        iat: iat as usize,
                        token_type: expected.to_owned(),
                    },
                )
            } else {
                None
            }
        },
        _ => None,
    }
}

/// Decides on a local token from what the signature check and the payload
/// gave: the identity, or `Unauthorized` whatever the reason.
pub fn check_local(
    accepted: bool,
    claims: Option<ClaimSet>,
    expected: TokenClass,
    now: u64,
) -> (r: Result<Claims, AuthError>)
    ensures
        r is Ok <==> local_identity(accepted, claims.deep_view(), expected, now) is Some,
        r matches Ok(c) ==> Some(c@) == local_identity(accepted, claims.deep_view(), expected, now)
            && c.well_formed(),
        r matches Err(e) ==> e == AuthError::Unauthorized,
{
    if !accepted {
        return Err(AuthError::Unauthorized);
    }
    match claims {
        None => Err(AuthError::Unauthorized),
        Some(c) => {
            let class_claim = clone_text(&c.token_type);
            match claims_identity(c, &class_claim, expected.name(), now) {
                Some(identity) => Ok(identity),
                None => Err(AuthError::Unauthorized),
            }
        },
    }
}

fn clone_text(text: &Option<String>) -> (r: Option<String>)
    ensures
        r.deep_view() == text.deep_view(),
{
    match text {
        Some(t) => Some(t.clone()),
        None => None,
    }
}

/// Mints and validates tokens under one signing secret, which it is given
/// once and never derives from a request.
pub struct TokenIssuer {
    secret: String,
}

/// The two tokens minted for `subject` at second `now` under `secret`;
/// `None` where the refresh expiry does not fit the machine's integers or
/// signing fails.
pub open spec fn issuance(subject: Seq<char>, now: u64, secret: Seq<u8>) -> Option<
    (Seq<char>, Seq<char>),
> {
    if now + REFRESH_TTL <= usize::MAX && now + REFRESH_TTL <= u64::MAX {
        match (
            hs256_token(
                subject,
                now,
                (now + ACCESS_TTL) as u64,
                class_name(TokenClass::Access),
                secret,
            ),
            hs256_token(
                subject,
                now,
                (now + REFRESH_TTL) as u64,
                class_name(TokenClass::Refresh),
                secret,
            ),
        ) {
            (Some(access), Some(refresh)) => Some((access, refresh)),
            _ => None,
        }
    } else {
        None
    }
}

/// The claim set carried by the token of class `class` minted for
/// `subject` at second `now`.
pub open spec fn issued_claims(subject: Seq<char>, now: u64, class: TokenClass) -> ClaimsView {
    minted_claims(subject, now, (now + lifetime(class)) as u64, class_name(class))
}

impl TokenIssuer {
    /// An issuer that signs under `secret`.
    pub fn new(secret: &str) -> (issuer: Self)
        ensures
            issuer.key() == encode_utf8(secret@),
    {
        TokenIssuer { secret: secret.to_owned() }
    }

    /// The bytes of the signing secret.
    pub closed spec fn key(&self) -> Seq<u8> {
        encode_utf8(self.secret@)
    }

    /// Whether `token` validates under this issuer as a token of class
    /// `expected` at second `at`.
    pub open spec fn validates(&self, token: Seq<char>, expected: TokenClass, at: u64) -> bool {
        local_identity(hs256_accepts(token, self.key()), token_claims(token), expected, at) is Some
    }

    /// Whether both tokens of a response are what this issuer mints for
    /// `subject` at second `now`: each verifies under the issuer's secret,
    /// carries the claims of its class, validates as its own class until
    /// its expiry and not after, and never validates as the other class.
    pub open spec fn minted(&self, tokens: AuthResponse, subject: Seq<char>, now: u64) -> bool {
        &&& issuance(subject, now, self.key()) == Some(
            (tokens.access_token@, tokens.refresh_token@),
        )
        &&& tokens.user_id@ == subject
        &&& hs256_accepts(tokens.access_token@, self.key())
        &&& hs256_accepts(tokens.refresh_token@, self.key())
        &&& token_claims(tokens.access_token@) == Some(
            issued_claims(subject, now, TokenClass::Access),
        )
        &&& token_claims(tokens.refresh_token@) == Some(
            issued_claims(subject, now, TokenClass::Refresh),
        )
        &&& forall|at: u64| #[trigger]
            self.validates(tokens.access_token@, TokenClass::Access, at) <==> at <= now
                + ACCESS_TTL
        &&& forall|at: u64| #[trigger]
            self.validates(tokens.refresh_token@, TokenClass::Refresh, at) <==> at <= now
                + REFRESH_TTL
        &&& forall|at: u64| !#[trigger] self.validates(
            tokens.access_token@,
            TokenClass::Refresh,
            at,
        )
        &&& forall|at: u64| !#[trigger] self.validates(
            tokens.refresh_token@,
            TokenClass::Access,
            at,
        )
    }

    /// What minting for `subject` at second `now` gives: the two tokens,
    /// or `Internal` where the refresh expiry does not fit the machine's
    /// integers or signing fails.
    pub open spec fn issued(
        &self,
        r: Result<AuthResponse, AuthError>,
        subject: Seq<char>,
        now: u64,
    ) -> bool {
        &&& r is Ok <==> issuance(subject, now, self.key()) is Some
        &&& r matches Ok(tokens) ==> self.minted(tokens, subject, now)
        &&& r matches Err(e) ==> e == AuthError::Internal
    }

    /// What validating `token` as class `expected` at second `now` gives:
    /// the identity of the token, or `Unauthorized` whatever the reason.
    pub open spec fn validated(
        &self,
        r: Result<Claims, AuthError>,
        token: Seq<char>,
        expected: TokenClass,
        now: u64,
    ) -> bool {
        &&& r is Ok <==> self.validates(token, expected, now)
        &&& r matches Ok(c) ==> Some(c@) == local_identity(
            hs256_accepts(token, self.key()),
            token_claims(token),
            expected,
            now,
        ) && c.well_formed()
        &&& r matches Err(e) ==> e == AuthError::Unauthorized
    }

    /// The subject of a refresh token that validates at second `now`.
    pub open spec fn refresh_subject(&self, refresh_token: Seq<char>, now: u64) -> Option<
        Seq<char>,
    > {
        match local_identity(
            hs256_accepts(refresh_token, self.key()),
            token_claims(refresh_token),
            TokenClass::Refresh,
            now,
        ) {
            Some(identity) => Some(identity.sub),
            None => None,
        }
    }

    /// What refreshing with `refresh_token` at second `now` gives:
    /// `Unauthorized` where the token does not validate as a refresh token,
    /// else what minting for its subject gives.
    pub open spec fn refreshed(
        &self,
        r: Result<AuthResponse, AuthError>,
        refresh_token: Seq<char>,
        now: u64,
    ) -> bool {
        match self.refresh_subject(refresh_token, now) {
            None => r == Err::<AuthResponse, AuthError>(AuthError::Unauthorized),
            Some(subject) => self.issued(r, subject, now),
        }
    }

    /// Mints the access and the refresh token of `subject` as of second
    /// `now`.
    pub fn issue_at(&self, subject: &str, now: u64) -> (r: Result<AuthResponse, AuthError>)
        ensures
            self.issued(r, subject@, now),
    {
        if now > u64::MAX - REFRESH_TTL || now + REFRESH_TTL > usize::MAX as u64 {
            return Err(AuthError::Internal);
        }
        let key = self.secret.as_str().as_bytes();
        let access = hs256_sign(subject, now, now + ACCESS_TTL, TokenClass::Access.name(), key);
        let refresh = hs256_sign(subject, now, now + REFRESH_TTL, TokenClass::Refresh.name(), key);
        match (access, refresh) {
            (Some(access_token), Some(refresh_token)) => {
                let tokens = AuthResponse {
                    access_token: access_token,
                    refresh_token: refresh_token,
                    user_id: subject.to_owned(),
                };
                proof {
                    assert forall|at: u64| #[trigger]
                        self.validates(tokens.access_token@, TokenClass::Access, at) <==> at
                            <= now + ACCESS_TTL by {
                        lemma_issued_token_validity(
                            subject@,
                            now,
                            TokenClass::Access,
                            TokenClass::Access,
                            at,
                        );
                    }
                    assert forall|at: u64| #[trigger]
                        self.validates(tokens.refresh_token@, TokenClass::Refresh, at) <==> at
                            <= now + REFRESH_TTL by {
                        lemma_issued_token_validity(
                            subject@,
                            now,
                            TokenClass::Refresh,
                            TokenClass::Refresh,
                            at,
                        );
                    }
                    assert forall|at: u64| !#[trigger] self.validates(
                        tokens.access_token@,
                        TokenClass::Refresh,
                        at,
                    ) by {
                        lemma_issued_token_validity(
                            subject@,
                            now,
                            TokenClass::Access,
                            TokenClass::Refresh,
                            at,
                        );
                    }
                    assert forall|at: u64| !#[trigger] self.validates(
                        tokens.refresh_token@,
                        TokenClass::Access,
                        at,
                    ) by {
                        lemma_issued_token_validity(
                            subject@,
                            now,
                            TokenClass::Refresh,
                            TokenClass::Access,
                            at,
                        );
                    }
                }
                Ok(tokens)
            },
            _ => Err(AuthError::Internal),
        }
    }

    /// Mints the access and the refresh token of `subject` as of the
    /// current second.
    pub fn issue(&self, subject: &str) -> (r: Result<AuthResponse, AuthError>)
        ensures
            exists|now: u64| #[trigger] self.issued(r, subject@, now),
    {
        let now = unix_now();
        self.issue_at(subject, now)
    }

    /// Validates `token` as a token of class `expected` at second `now`.
    /// Every failure is the same `Unauthorized`.
    pub fn validate_at(&self, token: &str, expected: TokenClass, now: u64) -> (r: Result<
        Claims,
        AuthError,
    >)
        ensures
            self.validated(r, token@, expected, now),
    {
        let accepted = hs256_verify(token, self.secret.as_str().as_bytes());
        let claims = if accepted {
            read_claims(token)
        } else {
            None
        };
        check_local(accepted, claims, expected, now)
    }

    /// Validates `token` as a token of class `expected` at the current
    /// second.
    pub fn validate(&self, token: &str, expected: TokenClass) -> (r: Result<Claims, AuthError>)
        ensures
            exists|now: u64| #[trigger] self.validated(r, token@, expected, now),
    {
        let now = unix_now();
        self.validate_at(token, expected, now)
    }

    /// Validates `refresh_token` as a refresh token at second `now` and
    /// mints a new pair for its subject. The presented token stays valid
    /// until it expires.
    pub fn refresh_at(&self, refresh_token: &str, now: u64) -> (r: Result<AuthResponse, AuthError>)
        ensures
            self.refreshed(r, refresh_token@, now),
    {
        match self.validate_at(refresh_token, TokenClass::Refresh, now) {
            Err(_) => Err(AuthError::Unauthorized),
            Ok(claims) => self.issue_at(claims.sub.as_str(), now),
        }
    }

    /// Validates `refresh_token` at the current second and mints a new
    /// pair for its subject.
    pub fn refresh(&self, refresh_token: &str) -> (r: Result<AuthResponse, AuthError>)
        ensures
            exists|now: u64| #[trigger] self.refreshed(r, refresh_token@, now),
    {
        let now = unix_now();
        self.refresh_at(refresh_token, now)
    }
}

/// A token minted at second `now` for one class validates at second `at`
/// exactly when it is asked for as that class, not before `now`'s expiry
/// has passed: an access token never as a refresh token, and the other way
/// round.
pub proof fn lemma_issued_token_validity(
    subject: Seq<char>,
    now: u64,
    class: TokenClass,
    expected: TokenClass,
    at: u64,
)
    requires
        now + lifetime(class) <= usize::MAX,
        now + lifetime(class) <= u64::MAX,
    ensures
        local_identity(true, Some(issued_claims(subject, now, class)), expected, at) is Some <==> (
        expected == class && at <= now + lifetime(class)),
        local_identity(true, Some(issued_claims(subject, now, class)), expected, at) matches Some(
            identity,
        ) ==> identity.sub == subject && identity.iat == now && identity.exp == now + lifetime(
            class,
        ),
{
    lemma_class_names_differ();
}

/// An access token validates as an access token for the 3600 seconds after
/// its issue, and never as a refresh token.
pub proof fn lemma_access_token_only_as_access(subject: Seq<char>, now: u64, at: u64)
    requires
        now + REFRESH_TTL <= usize::MAX,
        now + REFRESH_TTL <= u64::MAX,
    ensures
        now <= at <= now + ACCESS_TTL ==> local_identity(
            true,
            Some(issued_claims(subject, now, TokenClass::Access)),
            TokenClass::Access,
            at,
        ) is Some,
        local_identity(
            true,
            Some(issued_claims(subject, now, TokenClass::Access)),
            TokenClass::Refresh,
            at,
        ) is None,
{
    lemma_issued_token_validity(subject, now, TokenClass::Access, TokenClass::Access, at);
    lemma_issued_token_validity(subject, now, TokenClass::Access, TokenClass::Refresh, at);
}

/// A refresh token validates as a refresh token for seven days after its
/// issue and no longer, and never as an access token.
pub proof fn lemma_refresh_token_seven_days(subject: Seq<char>, now: u64, at: u64)
    requires
        now + REFRESH_TTL <= usize::MAX,
        now + REFRESH_TTL <= u64::MAX,
    ensures
        local_identity(
            true,
            Some(issued_claims(subject, now, TokenClass::Refresh)),
            TokenClass::Refresh,
            at,
        ) is Some <==> at <= now + 604800,
        local_identity(
            true,
            Some(issued_claims(subject, now, TokenClass::Refresh)),
            TokenClass::Access,
            at,
        ) is None,
{
    lemma_issued_token_validity(subject, now, TokenClass::Refresh, TokenClass::Refresh, at);
    lemma_issued_token_validity(subject, now, TokenClass::Refresh, TokenClass::Access, at);
}

/// A token whose expiry lies before `now` gives no identity, whether or
/// not its signature was accepted and whatever class is asked for.
pub proof fn lemma_expired_gives_no_identity(
    accepted: bool,
    claims: ClaimsView,
    expected: TokenClass,
    now: u64,
)
    requires
        claims.exp matches Some(exp) && exp < now,
    ensures
        local_identity(accepted, Some(claims), expected, now) is None,
{
}

/// A token whose signature was not accepted gives no identity, whatever
/// its payload says.
pub proof fn lemma_unsigned_gives_no_identity(
    claims: Option<ClaimsView>,
    expected: TokenClass,
    now: u64,
)
    ensures
        local_identity(false, claims, expected, now) is None,
{
}

} // verus!
