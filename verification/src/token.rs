//! The compact form of a signed token: three segments separated by dots,
//! each the unpadded URL-safe base64 of a header, a claim set and a
//! signature.

use vstd::prelude::*;
use vstd::string::*;
use vstd::utf8::*;
use base64::Engine;

verus! {

/// The position of the first dot of `s` at or after `from`; the length of
/// `s` when there is none.
pub open spec fn next_dot(s: Seq<char>, from: int) -> int
    decreases s.len() - from,
{
    if from < 0 || from >= s.len() {
        s.len() as int
    } else if s[from] == '.' {
        from
    } else {
        next_dot(s, from + 1)
    }
}

/// Position of the dot that ends the header segment.
pub open spec fn first_dot(s: Seq<char>) -> int {
    next_dot(s, 0)
}

/// Position of the dot that ends the payload segment.
pub open spec fn second_dot(s: Seq<char>) -> int {
    next_dot(s, first_dot(s) + 1)
}

/// Whether `s` has the shape of a compact token: ASCII only, and exactly
/// two dots.
pub open spec fn is_compact(s: Seq<char>) -> bool {
    &&& is_ascii_chars(s)
    &&& first_dot(s) < s.len()
    &&& second_dot(s) < s.len()
    &&& next_dot(s, second_dot(s) + 1) == s.len()
}

/// The text before the first dot.
pub open spec fn header_segment(s: Seq<char>) -> Seq<char> {
    s.subrange(0, first_dot(s))
}

/// The text between the two dots.
pub open spec fn payload_segment(s: Seq<char>) -> Seq<char> {
    s.subrange(first_dot(s) + 1, second_dot(s))
}

/// The text after the second dot.
pub open spec fn signature_segment(s: Seq<char>) -> Seq<char> {
    s.subrange(second_dot(s) + 1, s.len() as int)
}

/// `next_dot` finds a dot or the end, and passes over no dot.
pub proof fn lemma_next_dot(s: Seq<char>, from: int)
    requires
        0 <= from <= s.len(),
    ensures
        from <= next_dot(s, from) <= s.len(),
        next_dot(s, from) < s.len() ==> s[next_dot(s, from)] == '.',
        forall|i: int| from <= i < next_dot(s, from) ==> s[i] != '.',
    decreases s.len() - from,
{
    if from < s.len() && s[from] != '.' {
        lemma_next_dot(s, from + 1);
    }
}

/// A compact token is its three segments joined by two dots, and no
/// segment holds a dot.
pub proof fn lemma_segments_rejoin(s: Seq<char>)
    requires
        is_compact(s),
    ensures
        s == header_segment(s) + seq!['.'] + payload_segment(s) + seq!['.'] + signature_segment(
            s,
        ),
        !header_segment(s).contains('.'),
        !payload_segment(s).contains('.'),
        !signature_segment(s).contains('.'),
{
    lemma_next_dot(s, 0);
    lemma_next_dot(s, first_dot(s) + 1);
    lemma_next_dot(s, second_dot(s) + 1);
    assert(s =~= header_segment(s) + seq!['.'] + payload_segment(s) + seq!['.']
        + signature_segment(s));
}

/// Three texts without a dot, joined by two dots, form a compact token with
/// these three segments.
pub proof fn lemma_joined_is_compact(header: Seq<char>, payload: Seq<char>, signature: Seq<char>)
    requires
        is_ascii_chars(header),
        is_ascii_chars(payload),
        is_ascii_chars(signature),
        !header.contains('.'),
        !payload.contains('.'),
        !signature.contains('.'),
    ensures
        is_compact(header + seq!['.'] + payload + seq!['.'] + signature),
        header_segment(header + seq!['.'] + payload + seq!['.'] + signature) == header,
        payload_segment(header + seq!['.'] + payload + seq!['.'] + signature) == payload,
        signature_segment(header + seq!['.'] + payload + seq!['.'] + signature) == signature,
{
    let s = header + seq!['.'] + payload + seq!['.'] + signature;
    let d1 = header.len() as int;
    let d2 = d1 + 1 + payload.len();
    assert forall|i: int| 0 <= i < d1 implies s[i] != '.' by {
        assert(s[i] == header[i]);
    }
    assert forall|i: int| d1 + 1 <= i < d2 implies s[i] != '.' by {
        assert(s[i] == payload[i - d1 - 1]);
    }
    assert forall|i: int| d2 + 1 <= i < s.len() implies s[i] != '.' by {
        assert(s[i] == signature[i - d2 - 1]);
    }
    lemma_next_dot_is(s, 0, d1);
    lemma_next_dot_is(s, d1 + 1, d2);
    lemma_next_dot_is(s, d2 + 1, s.len() as int);
    assert(header_segment(s) =~= header);
    assert(payload_segment(s) =~= payload);
    assert(signature_segment(s) =~= signature);
    assert forall|i: int| 0 <= i < s.len() implies '\0' <= #[trigger] s[i] <= '\u{7f}' by {
        if i < d1 {
            assert(s[i] == header[i]);
        } else if i == d1 {
        } else if i < d2 {
            assert(s[i] == payload[i - d1 - 1]);
        } else if i == d2 {
        } else {
            assert(s[i] == signature[i - d2 - 1]);
        }
    }
}

/// Where no dot stands from `from` up to `at`, and `at` is a dot or the
/// end, `next_dot` from `from` is `at`.
proof fn lemma_next_dot_is(s: Seq<char>, from: int, at: int)
    requires
        0 <= from <= at <= s.len(),
        forall|i: int| from <= i < at ==> s[i] != '.',
        at < s.len() ==> s[at] == '.',
    ensures
        next_dot(s, from) == at,
    decreases at - from,
{
    if from < at {
        lemma_next_dot_is(s, from + 1, at);
    }
}

/// The three segments of a compact token, borrowed from it.
#[derive(Debug, Clone)]
pub struct TokenParts<'a> {
    pub header: &'a str,
    pub payload: &'a str,
    pub signature: &'a str,
}

/// Finds the first dot at or after `from`.
fn find_dot(token: &str, from: usize) -> (at: usize)
    requires
        is_ascii_chars(token@),
        from <= token@.len(),
    ensures
        at == next_dot(token@, from as int),
        from <= at <= token@.len(),
{
    let bytes = token.as_bytes();
    proof {
        is_ascii_chars_encode_utf8(token@);
    }
    let n = bytes.len();
    let mut i = from;
    while i < n && bytes[i] != 46u8
        invariant
            n == token@.len(),
            n == bytes@.len(),
            is_ascii_chars(token@),
            forall|k: int| 0 <= k < n ==> token@[k] as u8 == #[trigger] bytes@[k],
            from <= i <= n,
            next_dot(token@, from as int) == next_dot(token@, i as int),
        decreases n - i,
    {
        assert(token@[i as int] != '.');
        i += 1;
    }
    proof {
        if i < n {
            let c = token@[i as int];
            assert(c as u8 == 46u8);
            assert('\0' <= c <= '\u{7f}');
            assert(c == '.');
        }
    }
    i
}

/// Splits a token at its two dots. `None` unless the token is ASCII and has
/// exactly two dots.
pub fn split_token<'a>(token: &'a str) -> (r: Option<TokenParts<'a>>)
    ensures
        r is Some <==> is_compact(token@),
        r matches Some(parts) ==> {
            &&& parts.header@ == header_segment(token@)
            &&& parts.payload@ == payload_segment(token@)
            &&& parts.signature@ == signature_segment(token@)
        },
{
    if !token.is_ascii() {
        return None;
    }
    let n = token.unicode_len();
    let d1 = find_dot(token, 0);
    if d1 >= n {
        return None;
    }
    let d2 = find_dot(token, d1 + 1);
    if d2 >= n {
        return None;
    }
    let d3 = find_dot(token, d2 + 1);
    if d3 < n {
        return None;
    }
    Some(
        TokenParts {
            header: token.substring_ascii(0, d1),
            payload: token.substring_ascii(d1 + 1, d2),
            signature: token.substring_ascii(d2 + 1, n),
        },
    )
}

/// What the unpadded URL-safe base64 text `text` decodes to; `None` where
/// it is no such text.
pub uninterp spec fn base64url_decoding(text: Seq<char>) -> Option<Seq<u8>>;

/// Calls `Engine::decode` of `base64::engine::general_purpose::URL_SAFE_NO_PAD`.
/// The result is a function of the text; a decoding error reads as `None`.
#[verifier::external_body]
pub(crate) fn base64url_decode(text: &str) -> (r: Option<Vec<u8>>)
    ensures
        r matches Some(bytes) ==> base64url_decoding(text@) == Some(bytes@),
        r is None ==> base64url_decoding(text@) is None,
{
    base64::engine::general_purpose::URL_SAFE_NO_PAD.decode(text).ok()
}

/// The claims that this library reads out of a token's payload. A claim
/// that is absent, or not of the expected JSON type, is `None`.
#[derive(Debug, Clone)]
pub struct ClaimSet {
    pub sub: Option<String>,
    pub email: Option<String>,
    pub token_type: Option<String>,
    pub token_use: Option<String>,
    pub iat: Option<u64>,
    pub exp: Option<u64>,
}

/// What contracts say of a claim set.
pub struct ClaimsView {
    pub sub: Option<Seq<char>>,
    pub email: Option<Seq<char>>,
    pub token_type: Option<Seq<char>>,
    pub token_use: Option<Seq<char>>,
    pub iat: Option<u64>,
    pub exp: Option<u64>,
}

impl View for ClaimSet {
    type V = ClaimsView;

    open spec fn view(&self) -> ClaimsView {
        ClaimsView {
            sub: self.sub.deep_view(),
            email: self.email.deep_view(),
            token_type: self.token_type.deep_view(),
            token_use: self.token_use.deep_view(),
            iat: self.iat,
            exp: self.exp,
        }
    }
}

impl DeepView for ClaimSet {
    type V = ClaimsView;

    open spec fn deep_view(&self) -> ClaimsView {
        self@
    }
}

/// The claims read out of the JSON document `bytes`; `None` where `bytes`
/// is no JSON document.
pub uninterp spec fn claims_json(bytes: Seq<u8>) -> Option<ClaimsView>;

/// Calls `serde_json::from_slice` for a `serde_json::Value`, then reads six
/// members with `Value::as_str` and `Value::as_u64`, which give `None` for
/// a member that is missing or of another type. The result is a function
/// of the bytes.
#[verifier::external_body]
pub(crate) fn parse_claims(bytes: &[u8]) -> (r: Option<ClaimSet>)
    ensures
        r.deep_view() == claims_json(bytes@),
{
    let doc: serde_json::Value = serde_json::from_slice(bytes).ok()?;
    Some(ClaimSet {
        sub: doc["sub"].as_str().map(String::from),
        email: doc["email"].as_str().map(String::from),
        token_type: doc["token_type"].as_str().map(String::from),
        token_use: doc["token_use"].as_str().map(String::from),
        iat: doc["iat"].as_u64(),
        exp: doc["exp"].as_u64(),
    })
}

/// The claims that stand in the payload of `token`; `None` where the token
/// is not compact or its payload is not base64 of a JSON document.
pub open spec fn token_claims(token: Seq<char>) -> Option<ClaimsView> {
    if is_compact(token) {
        match base64url_decoding(payload_segment(token)) {
            Some(bytes) => claims_json(bytes),
            None => None,
        }
    } else {
        None
    }
}

/// Reads the claims out of the payload of `token`, without checking its
/// signature.
pub fn read_claims(token: &str) -> (r: Option<ClaimSet>)
    ensures
        r.deep_view() == token_claims(token@),
{
    match split_token(token) {
        None => None,
        Some(parts) => match base64url_decode(parts.payload) {
            None => None,
            Some(bytes) => parse_claims(bytes.as_slice()),
        },
    }
}

} // verus!
