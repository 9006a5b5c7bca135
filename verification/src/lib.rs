//! Confidential balance transfers over homomorphically encrypted balances,
//! together with the pipeline that turns one transfer into a checkable
//! artifact.

pub mod error;
pub mod wire;
pub mod bfv;
pub mod params;
pub mod codec;
pub mod receipt;
pub mod encoding;
pub mod transfer;
pub mod journal;
pub mod pipeline;
pub mod cors;
