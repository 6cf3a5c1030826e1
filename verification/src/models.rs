//! Request and response bodies, identity claims, and the error body that
//! every handler answers with.

use vstd::prelude::*;
use crate::text::same_text;

verus! {

/// Table of the credential records.
pub const TABLE_USERS: &'static str = "ovaflus-users";

/// Table of the budgets.
pub const TABLE_BUDGETS: &'static str = "ovaflus-budgets";

/// Table of the transactions.
pub const TABLE_TRANSACTIONS: &'static str = "ovaflus-transactions";

/// Table of the holdings.
pub const TABLE_PORTFOLIO: &'static str = "ovaflus-portfolio";

/// Table of the watchlists.
pub const TABLE_WATCHLIST: &'static str = "ovaflus-watchlist";

/// Table of the goals.
pub const TABLE_GOALS: &'static str = "ovaflus-goals";

/// Table of the linked aggregation items.
pub const TABLE_PLAID_ITEMS: &'static str = "ovaflus-plaid-items";

/// The body of `POST /auth/signup`.
#[derive(Debug, Clone)]
pub struct SignUpRequest {
    pub email: String,
    pub name: String,
    pub password: String,
}

/// The body of `POST /auth/signin`.
#[derive(Debug, Clone)]
pub struct SignInRequest {
    pub email: String,
    pub password: String,
}

/// The body of `POST /auth/refresh`.
#[derive(Debug, Clone)]
pub struct RefreshRequest {
    pub refresh_token: String,
}

/// What sign-up, sign-in and refresh answer with.
#[derive(Debug, Clone)]
pub struct AuthResponse {
    pub access_token: String,
    pub refresh_token: String,
    pub user_id: String,
}

/// The verified identity that is handed to the handlers behind the
/// authenticator.
#[derive(Debug, Clone)]
pub struct Claims {
    /// The user's identifier.
    pub sub: String,
    /// Second of expiry, since the Unix epoch.
    pub exp: usize,
    /// Second of issue, since the Unix epoch.
    pub iat: usize,
    /// `access` or `refresh`.
    pub token_type: String,
}

/// What contracts say of identity claims.
pub struct IdentityView {
    pub sub: Seq<char>,
    pub exp: nat,
    pub iat: nat,
    pub token_type: Seq<char>,
}

impl View for Claims {
    type V = IdentityView;

    open spec fn view(&self) -> IdentityView {
        IdentityView {
            sub: self.sub@,
            exp: self.exp as nat,
            iat: self.iat as nat,
            token_type: self.token_type@,
        }
    }
}

impl Claims {
    /// Whether the claims are those of a token that this system accepts:
    /// expiry after issue, and one of the two token classes.
    pub open spec fn well_formed(&self) -> bool {
        &&& self.exp > self.iat
        &&& (self.token_type@ == "access"@ || self.token_type@ == "refresh"@)
    }
}

/// The request context of an authenticated call: the verified claims.
#[derive(Debug, Clone)]
pub struct AuthUser(pub Claims);

/// The body of `POST /auth/apple`.
#[derive(Debug, Clone)]
pub struct AppleSignInRequest {
    pub identity_token: String,
}

/// The body of `POST /auth/google`.
#[derive(Debug, Clone)]
pub struct GoogleSignInRequest {
    pub id_token: String,
}

/// The tokens that the federated provider issues at the end of a bridged
/// sign-in.
#[derive(Debug, Clone)]
pub struct CognitoTokenResponse {
    pub access_token: String,
    pub id_token: String,
    pub refresh_token: String,
    pub expires_in: i32,
}

/// One symbol on a user's watchlist.
#[derive(Debug, Clone)]
pub struct WatchlistItem {
    pub user_id: String,
    pub symbol: String,
    pub added_at: String,
}

/// The body of `POST /watchlist`.
#[derive(Debug, Clone)]
pub struct AddWatchlistRequest {
    pub symbol: String,
}

/// Asks for a link token for a user.
#[derive(Debug, Clone)]
pub struct PlaidLinkTokenRequest {
    pub user_id: String,
}

/// Asks to exchange a public token of the aggregation service.
#[derive(Debug, Clone)]
pub struct PlaidExchangeRequest {
    pub public_token: String,
    pub institution_name: Option<String>,
}

/// Asks to synchronise the transactions of a linked item.
#[derive(Debug, Clone)]
pub struct PlaidSyncRequest {
    pub item_id: String,
}

/// The body of every error response.
#[derive(Debug, Clone)]
pub struct ApiError {
    pub error: String,
    pub message: String,
}

/// The HTTP status that an error body is sent with, by its code.
pub open spec fn status_for_code(code: Seq<char>) -> u16 {
    if code == "unauthorized"@ {
        401
    } else if code == "bad_request"@ {
        400
    } else if code == "not_found"@ {
        404
    } else {
        500
    }
}

impl ApiError {
    /// An error body with the generic code `error`.
    pub fn new(message: &str) -> (r: ApiError)
        ensures
            r.error@ == "error"@,
            r.message@ == message@,
    {
        ApiError { error: "error".to_owned(), message: message.to_owned() }
    }

    /// An error body with the given code.
    pub fn with_code(error: &str, message: &str) -> (r: ApiError)
        ensures
            r.error@ == error@,
            r.message@ == message@,
    {
        ApiError { error: error.to_owned(), message: message.to_owned() }
    }

    /// Status 401 with the code `unauthorized`.
    pub fn unauthorized(message: &str) -> (r: (u16, ApiError))
        ensures
            r.0 == 401,
            r.1.error@ == "unauthorized"@,
            r.1.message@ == message@,
    {
        (401, ApiError::with_code("unauthorized", message))
    }

    /// Status 400 with the code `bad_request`.
    pub fn bad_request(message: &str) -> (r: (u16, ApiError))
        ensures
            r.0 == 400,
            r.1.error@ == "bad_request"@,
            r.1.message@ == message@,
    {
        (400, ApiError::with_code("bad_request", message))
    }

    /// Status 404 with the code `not_found`.
    pub fn not_found(message: &str) -> (r: (u16, ApiError))
        ensures
            r.0 == 404,
            r.1.error@ == "not_found"@,
            r.1.message@ == message@,
    {
        (404, ApiError::with_code("not_found", message))
    }

    /// Status 500 with the code `internal_error`.
    pub fn internal(message: &str) -> (r: (u16, ApiError))
        ensures
            r.0 == 500,
            r.1.error@ == "internal_error"@,
            r.1.message@ == message@,
    {
        (500, ApiError::with_code("internal_error", message))
    }

    /// The status that this body is sent with when it is returned on its
    /// own: the one that belongs to its code, 500 for any other code.
    pub fn status_code(&self) -> (r: u16)
        ensures
            r == status_for_code(self.error@),
    {
        if same_text(self.error.as_str(), "unauthorized") {
            401
        } else if same_text(self.error.as_str(), "bad_request") {
            400
        } else if same_text(self.error.as_str(), "not_found") {
            404
        } else {
            500
        }
    }
}

/// The four status helpers pair each body with the status that the body
/// would be sent with on its own.
pub proof fn lemma_helper_status_agrees(code: Seq<char>)
    ensures
        code == "unauthorized"@ ==> status_for_code(code) == 401,
        code == "bad_request"@ ==> status_for_code(code) == 400,
        code == "not_found"@ ==> status_for_code(code) == 404,
        code == "internal_error"@ ==> status_for_code(code) == 500,
{
    reveal_strlit("unauthorized");
    reveal_strlit("bad_request");
    reveal_strlit("not_found");
    reveal_strlit("internal_error");
    assert("unauthorized"@.len() == 12);
    assert("bad_request"@.len() == 11);
    assert("not_found"@.len() == 9);
    assert("internal_error"@.len() == 14);
}

} // verus!
