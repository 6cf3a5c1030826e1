//! The federation bridge: turns a verified email into a session of the
//! federated identity provider. The bridge decides; its caller performs
//! each provider request and hands the reply back.

use vstd::prelude::*;
use vstd::string::*;
use vstd::utf8::*;
use rand::Rng;
use crate::error::BridgeError;
use crate::models::CognitoTokenResponse;
use crate::clock::unix_now;
use crate::nonce::{nonce_at, nonce_text};
use crate::text::{contains_text, occurs_in};

verus! {

/// The provider's name of the authentication flow that the bridge starts:
/// the custom flow, which asks for no password.
pub const CUSTOM_AUTH_FLOW: &'static str = "CUSTOM_AUTH";

/// The provider's name of the challenge that the bridge answers.
pub const CUSTOM_CHALLENGE: &'static str = "CUSTOM_CHALLENGE";

/// Number of random characters in a generated password.
pub const PASSWORD_RANDOM_LEN: usize = 24;

/// The character that stands for index `i` among the 62 letters and digits:
/// the digits first, then upper case, then lower case.
pub open spec fn alphabet_char(i: int) -> char {
    if i < 10 {
        (48 + i) as char
    } else if i < 36 {
        (65 + i - 10) as char
    } else {
        (97 + i - 36) as char
    }
}

/// The fixed head of every generated password: one upper-case letter, one
/// lower-case letter and one digit.
pub open spec fn password_head() -> Seq<char> {
    seq!['A', 'a', '1']
}

/// The password made of the fixed head and one character per index.
pub open spec fn password_text(indices: Seq<u8>) -> Seq<char> {
    password_head() + Seq::new(indices.len(), |k: int| alphabet_char(indices[k] as int))
}

/// Whether a password holds an upper-case letter, a lower-case letter and a
/// digit.
pub open spec fn meets_policy(password: Seq<char>) -> bool {
    &&& exists|i: int| 0 <= i < password.len() && 'A' <= #[trigger] password[i] <= 'Z'
    &&& exists|i: int| 0 <= i < password.len() && 'a' <= #[trigger] password[i] <= 'z'
    &&& exists|i: int| 0 <= i < password.len() && '0' <= #[trigger] password[i] <= '9'
}

/// Whether every character is an ASCII letter or digit.
pub open spec fn is_alphanumeric(password: Seq<char>) -> bool {
    forall|i: int|
        0 <= i < password.len() ==> {
            let c = #[trigger] password[i];
            ('0' <= c <= '9') || ('A' <= c <= 'Z') || ('a' <= c <= 'z')
        }
}

/// Every password built from indices below 62 meets the policy, whatever
/// the indices are.
pub proof fn lemma_password_meets_policy(indices: Seq<u8>)
    requires
        forall|k: int| 0 <= k < indices.len() ==> indices[k] < 62,
    ensures
        meets_policy(password_text(indices)),
        is_alphanumeric(password_text(indices)),
        password_text(indices).len() == 3 + indices.len(),
{
    let p = password_text(indices);
    assert(p[0] == 'A');
    assert(p[1] == 'a');
    assert(p[2] == '1');
    assert forall|i: int| 0 <= i < p.len() implies {
        let c = #[trigger] p[i];
        ('0' <= c <= '9') || ('A' <= c <= 'Z') || ('a' <= c <= 'z')
    } by {
        if i >= 3 {
            assert(p[i] == alphabet_char(indices[i - 3] as int));
        }
    }
}

/// Calls `rand::thread_rng` and `Rng::gen_range` on `0..bound`, which
/// returns a value of that range and panics on an empty one.
#[verifier::external_body]
fn random_below(bound: u8) -> (r: u8)
    requires
        bound > 0,
    ensures
        r < bound,
{
    rand::thread_rng().gen_range(0..bound)
}

/// The one-character string for an index below 62.
fn alphabet_text(index: u8) -> (r: &'static str)
    requires
        index < 62,
    ensures
        r@ == seq![alphabet_char(index as int)],
{
    let alphabet = "0123456789ABCDEFGHIJKLMNOPQRSTUVWXYZabcdefghijklmnopqrstuvwxyz";
    proof {
        reveal_strlit("0123456789ABCDEFGHIJKLMNOPQRSTUVWXYZabcdefghijklmnopqrstuvwxyz");
        assert(alphabet@.len() == 62);
        assert forall|k: int| 0 <= k < 62 implies #[trigger] alphabet@[k] == alphabet_char(k) by {
            lemma_alphabet_literal(k);
        }
        assert(is_ascii_chars(alphabet@));
    }
    let i = index as usize;
    let r = alphabet.substring_ascii(i, i + 1);
    assert(r@ =~= seq![alphabet_char(index as int)]);
    r
}

proof fn lemma_alphabet_literal(k: int)
    requires
        0 <= k < 62,
    ensures
        "0123456789ABCDEFGHIJKLMNOPQRSTUVWXYZabcdefghijklmnopqrstuvwxyz"@[k] == alphabet_char(k),
{
    reveal_strlit("0123456789ABCDEFGHIJKLMNOPQRSTUVWXYZabcdefghijklmnopqrstuvwxyz");
    let a = "0123456789ABCDEFGHIJKLMNOPQRSTUVWXYZabcdefghijklmnopqrstuvwxyz"@;
    assert(a[0] == '0' && a[1] == '1' && a[2] == '2' && a[3] == '3' && a[4] == '4' && a[5] == '5'
        && a[6] == '6' && a[7] == '7' && a[8] == '8' && a[9] == '9');
    assert(a[10] == 'A' && a[11] == 'B' && a[12] == 'C' && a[13] == 'D' && a[14] == 'E' && a[15]
        == 'F' && a[16] == 'G' && a[17] == 'H' && a[18] == 'I' && a[19] == 'J' && a[20] == 'K'
        && a[21] == 'L' && a[22] == 'M');
    assert(a[23] == 'N' && a[24] == 'O' && a[25] == 'P' && a[26] == 'Q' && a[27] == 'R' && a[28]
        == 'S' && a[29] == 'T' && a[30] == 'U' && a[31] == 'V' && a[32] == 'W' && a[33] == 'X'
        && a[34] == 'Y' && a[35] == 'Z');
    assert(a[36] == 'a' && a[37] == 'b' && a[38] == 'c' && a[39] == 'd' && a[40] == 'e' && a[41]
        == 'f' && a[42] == 'g' && a[43] == 'h' && a[44] == 'i' && a[45] == 'j' && a[46] == 'k'
        && a[47] == 'l' && a[48] == 'm');
    assert(a[49] == 'n' && a[50] == 'o' && a[51] == 'p' && a[52] == 'q' && a[53] == 'r' && a[54]
        == 's' && a[55] == 't' && a[56] == 'u' && a[57] == 'v' && a[58] == 'w' && a[59] == 'x'
        && a[60] == 'y' && a[61] == 'z');
}

/// Builds the password that belongs to indices below 62.
fn build_password(indices: &Vec<u8>) -> (password: String)
    requires
        forall|k: int| 0 <= k < indices@.len() ==> indices@[k] < 62,
    ensures
        password@ == password_text(indices@),
{
    proof {
        reveal_strlit("Aa1");
        assert("Aa1"@ =~= password_head());
    }
    let mut password = "Aa1".to_owned();
    let n = indices.len();
    let mut i: usize = 0;
    while i < n
        invariant
            n == indices@.len(),
            i <= n,
            forall|k: int| 0 <= k < indices@.len() ==> indices@[k] < 62,
            password@ == password_head() + Seq::new(
                i as nat,
                |k: int| alphabet_char(indices@[k] as int),
            ),
        decreases n - i,
    {
        password.append(alphabet_text(indices[i]));
        i += 1;
        assert(password@ =~= password_head() + Seq::new(
            i as nat,
            |k: int| alphabet_char(indices@[k] as int),
        ));
    }
    password
}

/// Whether every index is below 62.
pub open spec fn in_alphabet(indices: Seq<u8>) -> bool {
    forall|k: int| 0 <= k < indices.len() ==> indices[k] < 62
}

/// Builds the password that belongs to the given indices; `None` where an
/// index is not below 62.
pub fn password_from_indices(indices: &Vec<u8>) -> (r: Option<String>)
    ensures
        r is Some <==> in_alphabet(indices@),
        r matches Some(password) ==> password@ == password_text(indices@),
{
    let n = indices.len();
    let mut i: usize = 0;
    while i < n
        invariant
            n == indices@.len(),
            i <= n,
            forall|k: int| 0 <= k < i ==> indices@[k] < 62,
        decreases n - i,
    {
        if indices[i] >= 62 {
            return None;
        }
        i += 1;
    }
    Some(build_password(indices))
}

/// Whether `password` is one that can be generated: the password of 24
/// indices below 62.
pub open spec fn is_generated(password: Seq<char>) -> bool {
    exists|indices: Seq<u8>|
        indices.len() == PASSWORD_RANDOM_LEN && in_alphabet(indices) && password
            == #[trigger] password_text(indices)
}

/// Every password that can be generated has 27 characters, all of them
/// letters or digits, begins with the fixed head and meets the policy.
pub proof fn lemma_generated_meets_policy(password: Seq<char>)
    requires
        is_generated(password),
    ensures
        password.len() == 3 + PASSWORD_RANDOM_LEN,
        password.subrange(0, 3) == password_head(),
        meets_policy(password),
        is_alphanumeric(password),
{
    let indices = choose|indices: Seq<u8>|
        indices.len() == PASSWORD_RANDOM_LEN && in_alphabet(indices) && password
            == #[trigger] password_text(indices);
    lemma_password_meets_policy(indices);
    assert(password.subrange(0, 3) =~= password_head());
}

/// Generates a fresh password: the fixed head, then 24 characters drawn at
/// random from the 62 letters and digits. It meets the policy whatever is
/// drawn.
pub fn random_password() -> (password: String)
    ensures
        is_generated(password@),
        password@.len() == 3 + PASSWORD_RANDOM_LEN,
        password@.subrange(0, 3) == password_head(),
        meets_policy(password@),
        is_alphanumeric(password@),
{
    let mut indices: Vec<u8> = Vec::new();
    let mut i: usize = 0;
    while i < PASSWORD_RANDOM_LEN
        invariant
            i <= PASSWORD_RANDOM_LEN,
            indices@.len() == i,
            forall|k: int| 0 <= k < indices@.len() ==> indices@[k] < 62,
        decreases PASSWORD_RANDOM_LEN - i,
    {
        let index = random_below(62);
        indices.push(index);
        i += 1;
    }
    let password = build_password(&indices);
    proof {
        assert(password@ == password_text(indices@));
        lemma_generated_meets_policy(password@);
    }
    password
}

/// What the bridge is configured with once, at start-up.
pub struct FederationBridge {
    pub user_pool_id: String,
    pub app_client_id: String,
    pub nonce_secret: String,
}

/// The tokens that the provider returns when it accepts the challenge.
#[derive(Debug, Clone)]
pub struct AuthenticationResult {
    pub access_token: Option<String>,
    pub id_token: Option<String>,
    pub refresh_token: Option<String>,
    pub expires_in: i32,
}

/// A request that the caller performs against the provider.
#[derive(Debug, Clone)]
pub enum ProviderRequest {
    /// Create the account for `username`, with the email attribute preset
    /// and marked verified, and without a welcome message.
    CreateUser {
        user_pool_id: String,
        username: String,
        email: String,
        email_verified: bool,
        suppress_message: bool,
    },
    /// Set the account's password.
    SetPassword { user_pool_id: String, username: String, password: String, permanent: bool },
    /// Start the authentication flow named by `auth_flow`.
    InitiateAuth {
        auth_flow: String,
        user_pool_id: String,
        client_id: String,
        username: String,
    },
    /// Answer the challenge named by `challenge_name` in the session.
    RespondToChallenge {
        challenge_name: String,
        user_pool_id: String,
        client_id: String,
        session: String,
        username: String,
        answer: String,
    },
}

/// What the provider answered to the last request.
#[derive(Debug, Clone)]
pub enum ProviderReply {
    /// The account was created.
    UserCreated,
    /// Creating the account failed; `detail` is the provider's error text.
    CreateFailed { detail: String },
    /// The password was set.
    PasswordSet,
    /// The flow was started, with or without a session handle.
    AuthInitiated { session: Option<String> },
    /// The answer was accepted, with or without tokens.
    ChallengeAnswered { result: Option<AuthenticationResult> },
    /// The request failed.
    Failed,
}

/// The request that the bridge is waiting on.
#[derive(Clone, Copy, Debug, PartialEq, Eq, Structural)]
pub enum BridgeState {
    Provisioning,
    Configuring,
    Initiating,
    Answering,
}

/// What the bridge decided: another request, or the end of the sign-in.
#[derive(Debug)]
pub enum BridgeStep {
    Call { next: BridgeState, request: ProviderRequest },
    Finished(Result<CognitoTokenResponse, BridgeError>),
}

/// What contracts say of a bridge: its three settings as texts.
pub struct BridgeView {
    pub user_pool_id: Seq<char>,
    pub app_client_id: Seq<char>,
    pub nonce_secret: Seq<char>,
}

/// What contracts say of the tokens handed to the caller.
pub struct TokensView {
    pub access_token: Seq<char>,
    pub id_token: Seq<char>,
    pub refresh_token: Seq<char>,
    pub expires_in: i32,
}

/// What contracts say of a provider result.
pub struct ResultView {
    pub access_token: Option<Seq<char>>,
    pub id_token: Option<Seq<char>>,
    pub refresh_token: Option<Seq<char>>,
    pub expires_in: i32,
}

/// What contracts say of a provider request.
pub enum RequestView {
    CreateUser {
        user_pool_id: Seq<char>,
        username: Seq<char>,
        email: Seq<char>,
        email_verified: bool,
        suppress_message: bool,
    },
    SetPassword {
        user_pool_id: Seq<char>,
        username: Seq<char>,
        password: Seq<char>,
        permanent: bool,
    },
    InitiateAuth {
        auth_flow: Seq<char>,
        user_pool_id: Seq<char>,
        client_id: Seq<char>,
        username: Seq<char>,
    },
    RespondToChallenge {
        challenge_name: Seq<char>,
        user_pool_id: Seq<char>,
        client_id: Seq<char>,
        session: Seq<char>,
        username: Seq<char>,
        answer: Seq<char>,
    },
}

/// What contracts say of a provider reply.
pub enum ReplyView {
    UserCreated,
    CreateFailed { detail: Seq<char> },
    PasswordSet,
    AuthInitiated { session: Option<Seq<char>> },
    ChallengeAnswered { result: Option<ResultView> },
    Failed,
}

/// What contracts say of a step.
pub enum StepView {
    Call { next: BridgeState, request: RequestView },
    Finished(Result<TokensView, BridgeError>),
}

impl View for FederationBridge {
    type V = BridgeView;

    open spec fn view(&self) -> BridgeView {
        BridgeView {
            user_pool_id: self.user_pool_id@,
            app_client_id: self.app_client_id@,
            nonce_secret: self.nonce_secret@,
        }
    }
}

impl View for CognitoTokenResponse {
    type V = TokensView;

    open spec fn view(&self) -> TokensView {
        TokensView {
            access_token: self.access_token@,
            id_token: self.id_token@,
            refresh_token: self.refresh_token@,
            expires_in: self.expires_in,
        }
    }
}

impl View for AuthenticationResult {
    type V = ResultView;

    open spec fn view(&self) -> ResultView {
        ResultView {
            access_token: self.access_token.deep_view(),
            id_token: self.id_token.deep_view(),
            refresh_token: self.refresh_token.deep_view(),
            expires_in: self.expires_in,
        }
    }
}

impl View for ProviderRequest {
    type V = RequestView;

    open spec fn view(&self) -> RequestView {
        match self {
            ProviderRequest::CreateUser {
                user_pool_id,
                username,
                email,
                email_verified,
                suppress_message,
            } => RequestView::CreateUser {
                user_pool_id: user_pool_id@,
                username: username@,
                email: email@,
                email_verified: *email_verified,
                suppress_message: *suppress_message,
            },
            ProviderRequest::SetPassword {
                user_pool_id,
                username,
                password,
                permanent,
            } => RequestView::SetPassword {
                user_pool_id: user_pool_id@,
                username: username@,
                password: password@,
                permanent: *permanent,
            },
            ProviderRequest::InitiateAuth {
                auth_flow,
                user_pool_id,
                client_id,
                username,
            } => RequestView::InitiateAuth {
                auth_flow: auth_flow@,
                user_pool_id: user_pool_id@,
                client_id: client_id@,
                username: username@,
            },
            ProviderRequest::RespondToChallenge {
                challenge_name,
                user_pool_id,
                client_id,
                session,
                username,
                answer,
            } => RequestView::RespondToChallenge {
                challenge_name: challenge_name@,
                user_pool_id: user_pool_id@,
                client_id: client_id@,
                session: session@,
                username: username@,
                answer: answer@,
            },
        }
    }
}

impl View for ProviderReply {
    type V = ReplyView;

    open spec fn view(&self) -> ReplyView {
        match self {
            ProviderReply::UserCreated => ReplyView::UserCreated,
            ProviderReply::CreateFailed { detail } => ReplyView::CreateFailed { detail: detail@ },
            ProviderReply::PasswordSet => ReplyView::PasswordSet,
            ProviderReply::AuthInitiated { session } => ReplyView::AuthInitiated {
                session: session.deep_view(),
            },
            ProviderReply::ChallengeAnswered { result } => ReplyView::ChallengeAnswered {
                result: match result {
                    Some(bundle) => Some(bundle@),
                    None => None,
                },
            },
            ProviderReply::Failed => ReplyView::Failed,
        }
    }
}

impl View for BridgeStep {
    type V = StepView;

    open spec fn view(&self) -> StepView {
        match self {
            BridgeStep::Call { next, request } => StepView::Call { next: *next, request: request@ },
            BridgeStep::Finished(Ok(tokens)) => StepView::Finished(Ok(tokens@)),
            BridgeStep::Finished(Err(e)) => StepView::Finished(Err(*e)),
        }
    }
}

/// A missing text reads as the empty text.
pub open spec fn or_empty(text: Option<Seq<char>>) -> Seq<char> {
    match text {
        Some(t) => t,
        None => Seq::empty(),
    }
}

/// The tokens handed to the caller for a provider result.
pub open spec fn tokens_of(result: ResultView) -> TokensView {
    TokensView {
        access_token: or_empty(result.access_token),
        id_token: or_empty(result.id_token),
        refresh_token: or_empty(result.refresh_token),
        expires_in: result.expires_in,
    }
}

/// Whether the provider's error text says that the account exists already.
pub open spec fn says_user_exists(detail: Seq<char>) -> bool {
    occurs_in(encode_utf8(detail), encode_utf8("UsernameExistsException"@))
}

/// The first request of every sign-in: create the account.
pub open spec fn first_request(bridge: BridgeView, email: Seq<char>) -> RequestView {
    RequestView::CreateUser {
        user_pool_id: bridge.user_pool_id,
        username: email,
        email: email,
        email_verified: true,
        suppress_message: true,
    }
}

/// What the bridge does in `state` when `reply` comes in. `password` is the
/// password to set once the account stands, `timestamp` the second at which
/// the challenge is answered.
pub open spec fn step(
    bridge: BridgeView,
    email: Seq<char>,
    state: BridgeState,
    reply: ReplyView,
    password: Seq<char>,
    timestamp: nat,
) -> StepView {
    match state {
        BridgeState::Provisioning => {
            let stands = match reply {
                ReplyView::UserCreated => true,
                ReplyView::CreateFailed { detail } => says_user_exists(detail),
                _ => false,
            };
            if stands {
                StepView::Call {
                    next: BridgeState::Configuring,
                    request: RequestView::SetPassword {
                        user_pool_id: bridge.user_pool_id,
                        username: email,
                        password: password,
                        permanent: true,
                    },
                }
            } else {
                StepView::Finished(Err(BridgeError::ProvisioningFailed))
            }
        },
        BridgeState::Configuring => match reply {
            ReplyView::PasswordSet => StepView::Call {
                next: BridgeState::Initiating,
                request: RequestView::InitiateAuth {
                    auth_flow: CUSTOM_AUTH_FLOW@,
                    user_pool_id: bridge.user_pool_id,
                    client_id: bridge.app_client_id,
                    username: email,
                },
            },
            _ => StepView::Finished(Err(BridgeError::ConfigurationFailed)),
        },
        BridgeState::Initiating => match reply {
            ReplyView::AuthInitiated { session: Some(session) } => StepView::Call {
                next: BridgeState::Answering,
                request: RequestView::RespondToChallenge {
                    challenge_name: CUSTOM_CHALLENGE@,
                    user_pool_id: bridge.user_pool_id,
                    client_id: bridge.app_client_id,
                    session: session,
                    username: email,
                    answer: nonce_text(email, bridge.nonce_secret, timestamp),
                },
            },
            ReplyView::AuthInitiated { session: None } => StepView::Finished(
                Err(BridgeError::NoSession),
            ),
            _ => StepView::Finished(Err(BridgeError::InitiationFailed)),
        },
        BridgeState::Answering => match reply {
            ReplyView::ChallengeAnswered { result: Some(result) } => StepView::Finished(
                Ok(tokens_of(result)),
            ),
            ReplyView::ChallengeAnswered { result: None } => StepView::Finished(
                Err(BridgeError::NoAuthResult),
            ),
            _ => StepView::Finished(Err(BridgeError::ChallengeFailed)),
        },
    }
}

/// How far a sign-in has come: the number of requests already answered.
pub open spec fn progress(state: BridgeState) -> nat {
    match state {
        BridgeState::Provisioning => 0,
        BridgeState::Configuring => 1,
        BridgeState::Initiating => 2,
        BridgeState::Answering => 3,
    }
}

fn text_or_empty(text: Option<String>) -> (r: String)
    ensures
        r@ == or_empty(text.deep_view()),
{
    match text {
        Some(t) => t,
        None => String::new(),
    }
}

impl FederationBridge {
    /// A bridge for the given user pool and client, answering challenges
    /// under `nonce_secret`.
    pub fn new(user_pool_id: &str, app_client_id: &str, nonce_secret: &str) -> (bridge: Self)
        ensures
            bridge@ == (BridgeView {
                user_pool_id: user_pool_id@,
                app_client_id: app_client_id@,
                nonce_secret: nonce_secret@,
            }),
    {
        FederationBridge {
            user_pool_id: user_pool_id.to_owned(),
            app_client_id: app_client_id.to_owned(),
            nonce_secret: nonce_secret.to_owned(),
        }
    }

    /// Begins a sign-in for `email`: the state to keep and the first
    /// request to perform.
    pub fn start(&self, email: &str) -> (r: (BridgeState, ProviderRequest))
        ensures
            r.0 == BridgeState::Provisioning,
            r.1@ == first_request(self@, email@),
    {
        (
            BridgeState::Provisioning,
            ProviderRequest::CreateUser {
                user_pool_id: self.user_pool_id.clone(),
                username: email.to_owned(),
                email: email.to_owned(),
                email_verified: true,
                suppress_message: true,
            },
        )
    }

    /// Decides the next step from the provider's reply, with the password
    /// and the second of the challenge given by the caller.
    pub fn advance_with(
        &self,
        email: &str,
        state: BridgeState,
        reply: ProviderReply,
        password: String,
        timestamp: u64,
    ) -> (r: BridgeStep)
        ensures
            r@ == step(self@, email@, state, reply@, password@, timestamp as nat),
    {
        match state {
            BridgeState::Provisioning => {
                let stands = match &reply {
                    ProviderReply::UserCreated => true,
                    ProviderReply::CreateFailed { detail } => contains_text(
                        detail.as_str(),
                        "UsernameExistsException",
                    ),
                    _ => false,
                };
                if stands {
                    BridgeStep::Call {
                        next: BridgeState::Configuring,
                        request: ProviderRequest::SetPassword {
                            user_pool_id: self.user_pool_id.clone(),
                            username: email.to_owned(),
                            password: password,
                            permanent: true,
                        },
                    }
                } else {
                    BridgeStep::Finished(Err(BridgeError::ProvisioningFailed))
                }
            },
            BridgeState::Configuring => match reply {
                ProviderReply::PasswordSet => BridgeStep::Call {
                    next: BridgeState::Initiating,
                    request: ProviderRequest::InitiateAuth {
                        auth_flow: CUSTOM_AUTH_FLOW.to_owned(),
                        user_pool_id: self.user_pool_id.clone(),
                        client_id: self.app_client_id.clone(),
                        username: email.to_owned(),
                    },
                },
                _ => BridgeStep::Finished(Err(BridgeError::ConfigurationFailed)),
            },
            BridgeState::Initiating => match reply {
                ProviderReply::AuthInitiated { session: Some(session) } => {
                    let answer = nonce_at(email, self.nonce_secret.as_str(), timestamp);
                    BridgeStep::Call {
                        next: BridgeState::Answering,
                        request: ProviderRequest::RespondToChallenge {
                            challenge_name: CUSTOM_CHALLENGE.to_owned(),
                            user_pool_id: self.user_pool_id.clone(),
                            client_id: self.app_client_id.clone(),
                            session: session,
                            username: email.to_owned(),
                            answer: answer,
                        },
                    }
                },
                ProviderReply::AuthInitiated { session: None } => BridgeStep::Finished(
                    Err(BridgeError::NoSession),
                ),
                _ => BridgeStep::Finished(Err(BridgeError::InitiationFailed)),
            },
            BridgeState::Answering => match reply {
                ProviderReply::ChallengeAnswered { result: Some(result) } => {
                    let AuthenticationResult { access_token, id_token, refresh_token, expires_in } =
                        result;
                    BridgeStep::Finished(
                        Ok(
                            CognitoTokenResponse {
                                access_token: text_or_empty(access_token),
                                id_token: text_or_empty(id_token),
                                refresh_token: text_or_empty(refresh_token),
                                expires_in: expires_in,
                            },
                        ),
                    )
                },
                ProviderReply::ChallengeAnswered { result: None } => BridgeStep::Finished(
                    Err(BridgeError::NoAuthResult),
                ),
                _ => BridgeStep::Finished(Err(BridgeError::ChallengeFailed)),
            },
        }
    }

    /// Decides the next step from the provider's reply. Where a password is
    /// to be set it is freshly generated; where the challenge is answered
    /// the nonce is computed for the current second.
    pub fn advance(&self, email: &str, state: BridgeState, reply: ProviderReply) -> (r: BridgeStep)
        ensures
            exists|password: Seq<char>, timestamp: u64|
                {
                    &&& state == BridgeState::Provisioning ==> is_generated(password)
                    &&& r@ == #[trigger] step(
                        self@,
                        email@,
                        state,
                        reply@,
                        password,
                        timestamp as nat,
                    )
                },
    {
        let password = match state {
            BridgeState::Provisioning => random_password(),
            _ => String::new(),
        };
        let timestamp = match state {
            BridgeState::Initiating => unix_now(),
            _ => 0,
        };
        let r = self.advance_with(email, state, reply, password, timestamp);
        assert(r@ == step(self@, email@, state, reply@, password@, timestamp as nat));
        r
    }
}

/// Each request that the bridge asks for moves the sign-in one state on, so
/// a sign-in ends after at most four replies.
pub proof fn lemma_step_advances(
    bridge: BridgeView,
    email: Seq<char>,
    state: BridgeState,
    reply: ReplyView,
    password: Seq<char>,
    timestamp: nat,
)
    ensures
        step(bridge, email, state, reply, password, timestamp) matches StepView::Call {
            next,
            ..
        } ==> progress(next) == progress(state) + 1,
{
}

/// An account that exists already is as good as one just created: the
/// sign-in goes on with the same request.
pub proof fn lemma_existing_account_is_success(
    bridge: BridgeView,
    email: Seq<char>,
    detail: Seq<char>,
    password: Seq<char>,
    timestamp: nat,
)
    requires
        says_user_exists(detail),
    ensures
        step(
            bridge,
            email,
            BridgeState::Provisioning,
            ReplyView::CreateFailed { detail },
            password,
            timestamp,
        ) == step(
            bridge,
            email,
            BridgeState::Provisioning,
            ReplyView::UserCreated,
            password,
            timestamp,
        ),
{
}

/// When the provider creates the account or reports that it exists, sets
/// the password, opens a session and accepts the answer with a result, the
/// sign-in ends with the tokens of that result, after the four requests in
/// their order.
pub proof fn lemma_bridge_completes(
    bridge: BridgeView,
    email: Seq<char>,
    created: ReplyView,
    session: Seq<char>,
    result: ResultView,
    password: Seq<char>,
    timestamp: nat,
)
    requires
        created == ReplyView::UserCreated || (created matches ReplyView::CreateFailed { detail }
            && says_user_exists(detail)),
    ensures
        step(bridge, email, BridgeState::Provisioning, created, password, timestamp)
            == (StepView::Call {
            next: BridgeState::Configuring,
            request: RequestView::SetPassword {
                user_pool_id: bridge.user_pool_id,
                username: email,
                password: password,
                permanent: true,
            },
        }),
        step(bridge, email, BridgeState::Configuring, ReplyView::PasswordSet, password, timestamp)
            == (StepView::Call {
            next: BridgeState::Initiating,
            request: RequestView::InitiateAuth {
                auth_flow: CUSTOM_AUTH_FLOW@,
                user_pool_id: bridge.user_pool_id,
                client_id: bridge.app_client_id,
                username: email,
            },
        }),
        step(
            bridge,
            email,
            BridgeState::Initiating,
            ReplyView::AuthInitiated { session: Some(session) },
            password,
            timestamp,
        ) == (StepView::Call {
            next: BridgeState::Answering,
            request: RequestView::RespondToChallenge {
                challenge_name: CUSTOM_CHALLENGE@,
                user_pool_id: bridge.user_pool_id,
                client_id: bridge.app_client_id,
                session: session,
                username: email,
                answer: nonce_text(email, bridge.nonce_secret, timestamp),
            },
        }),
        step(
            bridge,
            email,
            BridgeState::Answering,
            ReplyView::ChallengeAnswered { result: Some(result) },
            password,
            timestamp,
        ) == StepView::Finished(Ok(tokens_of(result))),
{
}

} // verus!
