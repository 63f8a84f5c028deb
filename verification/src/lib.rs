//! Decision logic of a single-request OAuth2 authorization-code gate: routing
//! of the two legs, the guild-membership policy, issuance of a signed identity
//! token and the mapping of outcomes to transport envelopes.

pub mod text;
pub mod response;
pub mod templates;
pub mod decimal;
pub mod policy;
pub mod signer;
pub mod provider;
pub mod request;
pub mod flow;
