//! Authorization-and-ledger core of a cross-chain swap bridge: minting of a
//! wrapped asset against one-time payment proofs, withdrawal requests recorded
//! from burn notifications, and reads gated by viewing keys.

pub mod constants;
pub mod contract;
pub mod crypto;
pub mod encoding;
pub mod laws;
pub mod msg;
pub mod query_messages;
pub mod state;
