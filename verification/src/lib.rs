//! Authentication and token verification for the Ovaflus backend: password
//! hashing, locally issued session tokens, verification of third-party
//! identity tokens against a published key set, the challenge protocol that
//! bridges a verified identity into a federated provider, and the request
//! authenticator in front of the other handlers.

pub mod accounts;
pub mod authenticator;
pub mod bridge;
mod clock;
pub mod error;
pub mod expression;
pub mod jwks;
pub mod local_token;
pub mod models;
pub mod nonce;
pub mod password;
pub mod plaid;
pub mod social;
pub mod text;
pub mod token;
