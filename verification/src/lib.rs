//! Decision core of an OAuth 2.0 authorization server for the
//! authorization code grant: the registry of clients, the rules that
//! resolve a redirect target and mint a single-use authorization code,
//! the store of grants, and the exchange of a code for an access token.
//!
//! The registry, the store of grants and the issuers of codes and tokens
//! are traits, so that the server can bring its own. Each of them says by a
//! spec function of its type whether its answers are known: contracts state
//! what holds of any implementation first, and then what holds of one whose
//! answers are known. Those in this crate are.
//!
//! Time is handed in by the caller, in seconds since the Unix epoch.

pub mod authorization;
pub mod cli;
pub mod client;
pub mod code;
pub mod grant;
pub mod owner;
pub mod port;
pub mod text;
pub mod token;
