//! Builds, signs and hex-encodes extrinsics for a Substrate-style node, and
//! decodes the node's replies to the queries and submissions that go with them.

pub mod bytes;
pub mod crypto;
pub mod decode;
pub mod extrinsic;
pub mod keys;
pub mod query;

pub use extrinsic::{generate_create_contract_tx, generate_put_code_tx, generate_tx, CallPayload};
pub use keys::{Keypair, RawSeed};
pub use query::{account_nonce, deploy_contract, genesis_hash, QueryError, RpcReply, SubmissionError};
