//! The remote verifier: checks a token that another party issued against
//! that party's published key set. Fetching the key set is the caller's
//! part; everything read out of the token and the key set is decided here.

use vstd::prelude::*;
use std::collections::HashSet;
use jsonwebtoken::errors::ErrorKind;
use jsonwebtoken::{decode, Algorithm, DecodingKey, Validation};
use serde_json::Value;
use crate::error::VerifyError;
use crate::text::{holds_text, same_text};
use crate::token::{
    base64url_decode, base64url_decoding, header_segment, is_compact, read_claims, split_token,
    token_claims, ClaimSet, ClaimsView,
};

verus! {

/// What this library reads out of a token's header.
#[derive(Debug, Clone)]
pub struct TokenHeader {
    pub alg: Option<String>,
    pub kid: Option<String>,
}

/// What contracts say of a header.
pub struct HeaderView {
    pub alg: Option<Seq<char>>,
    pub kid: Option<Seq<char>>,
}

impl View for TokenHeader {
    type V = HeaderView;

    open spec fn view(&self) -> HeaderView {
        HeaderView { alg: self.alg.deep_view(), kid: self.kid.deep_view() }
    }
}

impl DeepView for TokenHeader {
    type V = HeaderView;

    open spec fn deep_view(&self) -> HeaderView {
        self@
    }
}

/// One key of a published key set: its identifier and the base64 of its
/// RSA modulus and exponent. A member that is absent is `None`.
#[derive(Debug, Clone)]
pub struct JwkEntry {
    pub kid: Option<String>,
    pub n: Option<String>,
    pub e: Option<String>,
}

/// What contracts say of a key.
pub struct JwkView {
    pub kid: Option<Seq<char>>,
    pub n: Option<Seq<char>>,
    pub e: Option<Seq<char>>,
}

impl View for JwkEntry {
    type V = JwkView;

    open spec fn view(&self) -> JwkView {
        JwkView { kid: self.kid.deep_view(), n: self.n.deep_view(), e: self.e.deep_view() }
    }
}

impl DeepView for JwkEntry {
    type V = JwkView;

    open spec fn deep_view(&self) -> JwkView {
        self@
    }
}

/// What the signature check said of a token.
#[derive(Clone, Copy, Debug, PartialEq, Eq, Structural)]
pub enum SignatureVerdict {
    /// The signature verifies, and audience and issuer are as expected.
    Accepted,
    /// Modulus or exponent is not base64.
    BadKey,
    /// The signature verifies, but a required claim is missing, or the
    /// audience or the issuer is not the one expected.
    ClaimRefused,
    /// The token was refused for any other reason.
    Refused,
}

/// The header read out of the JSON document `bytes`; `None` where `bytes`
/// is no JSON document.
pub uninterp spec fn header_json(bytes: Seq<u8>) -> Option<HeaderView>;

/// The keys read out of the JSON document `bytes`; `None` where `bytes` is
/// no JSON document or has no array under `keys`.
pub uninterp spec fn jwks_json(bytes: Seq<u8>) -> Option<Seq<JwkView>>;

/// The base64 of the modulus and the exponent of an RSA public key,
/// borrowed from a key of the key set.
#[derive(Debug, Clone, Copy)]
pub struct JwkComponents<'a> {
    pub modulus: &'a str,
    pub exponent: &'a str,
}

impl<'a> View for JwkComponents<'a> {
    type V = (Seq<char>, Seq<char>);

    open spec fn view(&self) -> (Seq<char>, Seq<char>) {
        (self.modulus@, self.exponent@)
    }
}

/// What `jsonwebtoken` says of `token` under the RSA key of the given
/// modulus and exponent, with the given audience and issuer expected and
/// the given claims required.
pub uninterp spec fn rs256_verdict(
    token: Seq<char>,
    key: (Seq<char>, Seq<char>),
    audience: Option<Seq<char>>,
    issuer: Option<Seq<char>>,
    required: Seq<Seq<char>>,
) -> SignatureVerdict;

/// Calls `serde_json::from_slice` for a `serde_json::Value`, then reads the
/// members `alg` and `kid` with `Value::as_str`, which gives `None` for a
/// member that is missing or no string. The result is a function of the
/// bytes.
#[verifier::external_body]
fn parse_header(bytes: &[u8]) -> (r: Option<TokenHeader>)
    ensures
        r.deep_view() == header_json(bytes@),
{
    let doc: Value = serde_json::from_slice(bytes).ok()?;
    Some(TokenHeader {
        alg: doc["alg"].as_str().map(String::from),
        kid: doc["kid"].as_str().map(String::from),
    })
}

/// Calls `serde_json::from_slice` for a `serde_json::Value`, takes the
/// member `keys` with `Value::as_array`, and reads `kid`, `n` and `e` of
/// each item with `Value::as_str`, in the order of the array. The result is
/// a function of the bytes.
#[verifier::external_body]
fn parse_jwks(bytes: &[u8]) -> (r: Option<Vec<JwkEntry>>)
    ensures
        r.deep_view() == jwks_json(bytes@),
{
    let doc: Value = serde_json::from_slice(bytes).ok()?;
    let read = |key: &Value| JwkEntry {
        kid: key["kid"].as_str().map(String::from),
        n: key["n"].as_str().map(String::from),
        e: key["e"].as_str().map(String::from),
    };
    Some(doc["keys"].as_array()?.iter().map(read).collect())
}

/// Calls `jsonwebtoken::decode` with `DecodingKey::from_rsa_components` and
/// a `Validation` for RS256 in which the expiry is switched off, so that
/// the verdict depends on the arguments alone. The claims named in
/// `required` must be present. The audience is validated only where one is
/// given, and so is the issuer. `decode` checks the signature before the
/// claims, and reports a missing claim, a wrong audience and a wrong issuer
/// each as an error kind of its own.
#[verifier::external_body]
fn rs256_verify(
    token: &str,
    key: &JwkComponents,
    audience: Option<&str>,
    issuer: Option<&str>,
    required: &Vec<String>,
) -> (verdict: SignatureVerdict)
    ensures
        verdict == rs256_verdict(
            token@,
            key@,
            audience.deep_view(),
            issuer.deep_view(),
            required.deep_view(),
        ),
{
    let key = DecodingKey::from_rsa_components(key.modulus, key.exponent);
    let Ok(key) = key else { return SignatureVerdict::BadKey };
    let mut rules = Validation::new(Algorithm::RS256);
    rules.validate_exp = false;
    rules.set_required_spec_claims(required);
    rules.validate_aud = audience.is_some();
    rules.aud = audience.map(|a| HashSet::from([a.to_string()]));
    rules.iss = issuer.map(|i| HashSet::from([i.to_string()]));
    match decode::<Value>(token, &key, &rules).map_err(|e| e.into_kind()) {
        Ok(_) => SignatureVerdict::Accepted,
        Err(ErrorKind::MissingRequiredClaim(_)) => SignatureVerdict::ClaimRefused,
        Err(ErrorKind::InvalidAudience) => SignatureVerdict::ClaimRefused,
        Err(ErrorKind::InvalidIssuer) => SignatureVerdict::ClaimRefused,
        Err(_) => SignatureVerdict::Refused,
    }
}

/// The header that stands in the first segment of `token`; `None` where
/// the token is not compact or the segment is not base64 of a JSON
/// document.
pub open spec fn token_header(token: Seq<char>) -> Option<HeaderView> {
    if is_compact(token) {
        match base64url_decoding(header_segment(token)) {
            Some(bytes) => header_json(bytes),
            None => None,
        }
    } else {
        None
    }
}

/// The key identifier that a header asks for. A header without one cannot
/// be read. A header that names an algorithm other than RS256 is refused:
/// a key meant for an asymmetric algorithm never checks another one. A
/// header that names none is taken as RS256.
pub open spec fn header_key_id(header: Option<HeaderView>) -> Result<Seq<char>, VerifyError> {
    match header {
        None => Err(VerifyError::BadFormat),
        Some(h) => match h.kid {
            None => Err(VerifyError::BadFormat),
            Some(kid) => if h.alg is None || h.alg == Some("RS256"@) {
                Ok(kid)
            } else {
                Err(VerifyError::SignatureInvalid)
            },
        },
    }
}

/// The position of the first key at or after `from` whose identifier is
/// `kid`; the number of keys when there is none.
pub open spec fn key_position(keys: Seq<JwkView>, kid: Seq<char>, from: int) -> int
    decreases keys.len() - from,
{
    if from < 0 || from >= keys.len() {
        keys.len() as int
    } else if keys[from].kid == Some(kid) {
        from
    } else {
        key_position(keys, kid, from + 1)
    }
}

/// The modulus and exponent of the first key whose identifier is `kid`.
/// `UnknownKey` where there is no such key, or where it lacks either
/// component.
pub open spec fn select_key(keys: Seq<JwkView>, kid: Seq<char>) -> Result<
    (Seq<char>, Seq<char>),
    VerifyError,
> {
    let at = key_position(keys, kid, 0);
    if at >= keys.len() {
        Err(VerifyError::UnknownKey)
    } else {
        match (keys[at].n, keys[at].e) {
            (Some(n), Some(e)) => Ok((n, e)),
            _ => Err(VerifyError::UnknownKey),
        }
    }
}

/// The claims that a token must carry: its audience where one is
/// expected, and its issuer where one is expected.
pub open spec fn required_claims(audience: Option<Seq<char>>, issuer: Option<Seq<char>>) -> Seq<
    Seq<char>,
> {
    let for_audience = if audience is Some {
        seq!["aud"@]
    } else {
        Seq::empty()
    };
    let for_issuer = if issuer is Some {
        seq!["iss"@]
    } else {
        Seq::empty()
    };
    for_audience + for_issuer
}

/// The error that goes with each verdict other than `Accepted`.
pub open spec fn verdict_error(verdict: SignatureVerdict) -> VerifyError {
    match verdict {
        SignatureVerdict::BadKey => VerifyError::UnknownKey,
        SignatureVerdict::ClaimRefused => VerifyError::ClaimInvalid,
        _ => VerifyError::SignatureInvalid,
    }
}

/// The claims of a token whose signature verified, at second `now`:
/// refused where the payload cannot be read, has no expiry, or expired
/// before `now`.
pub open spec fn unexpired(claims: Option<ClaimsView>, now: u64) -> Result<
    ClaimsView,
    VerifyError,
> {
    match claims {
        None => Err(VerifyError::BadFormat),
        Some(c) => match c.exp {
            None => Err(VerifyError::ClaimInvalid),
            Some(exp) => if exp < now {
                Err(VerifyError::ClaimInvalid)
            } else {
                Ok(c)
            },
        },
    }
}

/// What remote verification of `token` gives at second `now`, with the
/// key set `keys` (`None` where it could not be fetched or read): the
/// token's claims, or the first failure in the order header, key set, key,
/// signature with audience and issuer, expiry.
pub open spec fn remote_outcome(
    token: Seq<char>,
    keys: Option<Seq<JwkView>>,
    audience: Option<Seq<char>>,
    issuer: Option<Seq<char>>,
    now: u64,
) -> Result<ClaimsView, VerifyError> {
    match header_key_id(token_header(token)) {
        Err(e) => Err(e),
        Ok(kid) => match keys {
            None => Err(VerifyError::UpstreamUnavailable),
            Some(keys) => match select_key(keys, kid) {
                Err(e) => Err(e),
                Ok(key) => {
                    let verdict = rs256_verdict(
                        token,
                        key,
                        audience,
                        issuer,
                        required_claims(audience, issuer),
                    );
                    if verdict == SignatureVerdict::Accepted {
                        unexpired(token_claims(token), now)
                    } else {
                        Err(verdict_error(verdict))
                    }
                },
            },
        },
    }
}

/// The view of a verification result.
pub open spec fn outcome_view(r: Result<ClaimSet, VerifyError>) -> Result<ClaimsView, VerifyError> {
    match r {
        Ok(c) => Ok(c@),
        Err(e) => Err(e),
    }
}

/// Reads the header out of the first segment of `token`.
pub fn read_header(token: &str) -> (r: Option<TokenHeader>)
    ensures
        r.deep_view() == token_header(token@),
{
    match split_token(token) {
        None => None,
        Some(parts) => match base64url_decode(parts.header) {
            None => None,
            Some(bytes) => parse_header(bytes.as_slice()),
        },
    }
}

/// Decides on a header: the key identifier to look for, or the refusal.
pub fn check_header(header: Option<TokenHeader>) -> (r: Result<String, VerifyError>)
    ensures
        r matches Ok(kid) ==> header_key_id(header.deep_view()) == Ok::<Seq<char>, VerifyError>(
            kid@,
        ),
        r matches Err(e) ==> header_key_id(header.deep_view()) == Err::<Seq<char>, VerifyError>(e),
{
    match header {
        None => Err(VerifyError::BadFormat),
        Some(h) => {
            let TokenHeader { alg, kid } = h;
            match kid {
                None => Err(VerifyError::BadFormat),
                Some(kid) => {
                    let asymmetric = match &alg {
                        None => true,
                        Some(a) => same_text(a.as_str(), "RS256"),
                    };
                    if asymmetric {
                        Ok(kid)
                    } else {
                        Err(VerifyError::SignatureInvalid)
                    }
                },
            }
        },
    }
}

/// Reads the token's header and returns the identifier of the key that it
/// asks for. This is all that can be decided before the key set is fetched.
pub fn inspect_token(token: &str) -> (r: Result<String, VerifyError>)
    ensures
        r matches Ok(kid) ==> header_key_id(token_header(token@)) == Ok::<
            Seq<char>,
            VerifyError,
        >(kid@),
        r matches Err(e) ==> header_key_id(token_header(token@)) == Err::<Seq<char>, VerifyError>(
            e,
        ),
{
    check_header(read_header(token))
}

/// Finds the first key whose identifier is `kid`.
pub fn find_key(keys: &Vec<JwkEntry>, kid: &str) -> (r: Option<usize>)
    ensures
        r matches Some(at) ==> at < keys@.len() && at == key_position(keys.deep_view(), kid@, 0),
        r is None ==> key_position(keys.deep_view(), kid@, 0) >= keys@.len(),
{
    let n = keys.len();
    let mut i: usize = 0;
    while i < n
        invariant
            n == keys@.len(),
            i <= n,
            keys.deep_view().len() == n,
            key_position(keys.deep_view(), kid@, 0) == key_position(
                keys.deep_view(),
                kid@,
                i as int,
            ),
        decreases n - i,
    {
        assert(keys.deep_view()[i as int] == keys@[i as int]@);
        if holds_text(&keys[i].kid, kid) {
            return Some(i);
        }
        i += 1;
    }
    None
}

/// Decides on the claims of a token whose signature verified.
pub fn check_expiry(claims: Option<ClaimSet>, now: u64) -> (r: Result<ClaimSet, VerifyError>)
    ensures
        outcome_view(r) == unexpired(claims.deep_view(), now),
{
    match claims {
        None => Err(VerifyError::BadFormat),
        Some(c) => match c.exp {
            None => Err(VerifyError::ClaimInvalid),
            Some(exp) => if exp < now {
                Err(VerifyError::ClaimInvalid)
            } else {
                Ok(c)
            },
        },
    }
}

/// Lists the claims that a token must carry.
fn claims_to_require(audience: Option<&str>, issuer: Option<&str>) -> (r: Vec<String>)
    ensures
        r.deep_view() == required_claims(audience.deep_view(), issuer.deep_view()),
{
    let mut required: Vec<String> = Vec::new();
    if audience.is_some() {
        required.push("aud".to_owned());
    }
    if issuer.is_some() {
        required.push("iss".to_owned());
    }
    assert(required.deep_view() =~= required_claims(audience.deep_view(), issuer.deep_view()));
    required
}

fn as_text(value: &Option<String>) -> (r: Option<&str>)
    ensures
        r.deep_view() == value.deep_view(),
{
    match value {
        Some(v) => Some(v.as_str()),
        None => None,
    }
}

/// Verifies `token` against the given keys at second `now`. The audience
/// is checked only where one is given, and so is the issuer: the token
/// must then name it. The expiry is always checked.
pub fn verify_with_keys(
    token: &str,
    keys: &Vec<JwkEntry>,
    audience: Option<&str>,
    issuer: Option<&str>,
    now: u64,
) -> (r: Result<ClaimSet, VerifyError>)
    ensures
        outcome_view(r) == remote_outcome(
            token@,
            Some(keys.deep_view()),
            audience.deep_view(),
            issuer.deep_view(),
            now,
        ),
{
    let kid = match inspect_token(token) {
        Err(e) => {
            return Err(e);
        },
        Ok(kid) => kid,
    };
    let at = match find_key(keys, kid.as_str()) {
        None => {
            return Err(VerifyError::UnknownKey);
        },
        Some(at) => at,
    };
    assert(keys.deep_view()[at as int] == keys@[at as int]@);
    let key = &keys[at];
    match (as_text(&key.n), as_text(&key.e)) {
        (Some(modulus), Some(exponent)) => {
            let components = JwkComponents { modulus, exponent };
            let required = claims_to_require(audience, issuer);
            let verdict = rs256_verify(token, &components, audience, issuer, &required);
            match verdict {
                SignatureVerdict::Accepted => check_expiry(read_claims(token), now),
                SignatureVerdict::BadKey => Err(VerifyError::UnknownKey),
                SignatureVerdict::ClaimRefused => Err(VerifyError::ClaimInvalid),
                SignatureVerdict::Refused => Err(VerifyError::SignatureInvalid),
            }
        },
        _ => Err(VerifyError::UnknownKey),
    }
}

/// Verifies `token` against a fetched key-set document at second `now`.
/// `document` is `None` where the fetch failed. A token whose header is
/// refused is refused whatever the fetch gave.
pub fn verify_with_document(
    token: &str,
    document: Option<&[u8]>,
    audience: Option<&str>,
    issuer: Option<&str>,
    now: u64,
) -> (r: Result<ClaimSet, VerifyError>)
    ensures
        outcome_view(r) == remote_outcome(
            token@,
            match document {
                Some(bytes) => jwks_json(bytes@),
                None => None,
            },
            audience.deep_view(),
            issuer.deep_view(),
            now,
        ),
{
    let parsed = match document {
        Some(bytes) => parse_jwks(bytes),
        None => None,
    };
    match parsed {
        Some(keys) => verify_with_keys(token, &keys, audience, issuer, now),
        None => match inspect_token(token) {
            Err(e) => Err(e),
            Ok(_) => Err(VerifyError::UpstreamUnavailable),
        },
    }
}

/// Where no key of the set has the identifier, the search runs to the end.
pub proof fn lemma_key_position_absent(keys: Seq<JwkView>, kid: Seq<char>, from: int)
    requires
        0 <= from <= keys.len(),
        forall|i: int| from <= i < keys.len() ==> keys[i].kid != Some(kid),
    ensures
        key_position(keys, kid, from) == keys.len(),
    decreases keys.len() - from,
{
    if from < keys.len() {
        lemma_key_position_absent(keys, kid, from + 1);
    }
}

/// The search finds a key with the identifier, or runs to the end, and
/// passes over no key with the identifier.
pub proof fn lemma_key_position(keys: Seq<JwkView>, kid: Seq<char>, from: int)
    requires
        0 <= from <= keys.len(),
    ensures
        from <= key_position(keys, kid, from) <= keys.len(),
        key_position(keys, kid, from) < keys.len() ==> keys[key_position(keys, kid, from)].kid
            == Some(kid),
        forall|i: int| from <= i < key_position(keys, kid, from) ==> keys[i].kid != Some(kid),
    decreases keys.len() - from,
{
    if from < keys.len() && keys[from].kid != Some(kid) {
        lemma_key_position(keys, kid, from + 1);
    }
}

/// A token whose header asks for a key that the fetched key set does not
/// hold is refused as `UnknownKey`, before any signature is looked at.
pub proof fn lemma_absent_key_is_unknown(
    token: Seq<char>,
    keys: Seq<JwkView>,
    audience: Option<Seq<char>>,
    issuer: Option<Seq<char>>,
    now: u64,
)
    requires
        header_key_id(token_header(token)) is Ok,
        forall|i: int|
            0 <= i < keys.len() ==> keys[i].kid != Some(header_key_id(token_header(token))->Ok_0),
    ensures
        remote_outcome(token, Some(keys), audience, issuer, now) == Err::<ClaimsView, VerifyError>(
            VerifyError::UnknownKey,
        ),
{
    lemma_key_position_absent(keys, header_key_id(token_header(token))->Ok_0, 0);
}

/// Whether `alg` names one of the symmetric algorithms.
pub open spec fn is_symmetric(alg: Seq<char>) -> bool {
    alg == "HS256"@ || alg == "HS384"@ || alg == "HS512"@
}

/// A token whose header names a symmetric algorithm is refused, whatever
/// the key set holds: also where it holds a key under the token's key
/// identifier.
pub proof fn lemma_symmetric_algorithm_refused(
    token: Seq<char>,
    keys: Option<Seq<JwkView>>,
    audience: Option<Seq<char>>,
    issuer: Option<Seq<char>>,
    now: u64,
)
    requires
        token_header(token) matches Some(h) && h.alg matches Some(alg) && is_symmetric(alg),
    ensures
        remote_outcome(token, keys, audience, issuer, now) is Err,
        header_key_id(token_header(token)) is Err,
{
    reveal_strlit("RS256");
    reveal_strlit("HS256");
    reveal_strlit("HS384");
    reveal_strlit("HS512");
    assert("RS256"@[0] == 'R');
    assert("HS256"@[0] == 'H');
    assert("HS384"@[0] == 'H');
    assert("HS512"@[0] == 'H');
}

/// A token whose expiry lies before `now` is refused, whether or not its
/// signature verifies.
pub proof fn lemma_expired_is_refused(
    token: Seq<char>,
    keys: Option<Seq<JwkView>>,
    audience: Option<Seq<char>>,
    issuer: Option<Seq<char>>,
    now: u64,
)
    requires
        token_claims(token) matches Some(c) && c.exp matches Some(exp) && exp < now,
    ensures
        remote_outcome(token, keys, audience, issuer, now) is Err,
{
}

/// A token that is accepted carries the claims of its own payload, and
/// their expiry is not in the past.
pub proof fn lemma_accepted_claims(
    token: Seq<char>,
    keys: Option<Seq<JwkView>>,
    audience: Option<Seq<char>>,
    issuer: Option<Seq<char>>,
    now: u64,
)
    requires
        remote_outcome(token, keys, audience, issuer, now) is Ok,
    ensures
        token_claims(token) == Some(remote_outcome(token, keys, audience, issuer, now)->Ok_0),
        remote_outcome(token, keys, audience, issuer, now)->Ok_0.exp matches Some(exp) && exp
            >= now,
        is_compact(token),
{
}

} // verus!
