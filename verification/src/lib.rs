//! Gateway client for an NFT smart contract.
//!
//! The library holds the decision logic of the gateway: input validation
//! (chain addresses, decimal token ids), classification of contract revert
//! text, the step-by-step mint flow, the list-by-owner policy, and the
//! hash-and-sign helper. Network transports (the RPC node, the
//! content-addressed store, the HTTP server) are driven by the surrounding
//! application, which performs the actions these functions hand back.

pub mod address;
pub mod decimal;
pub mod error;
pub mod gateway;
pub mod hexfmt;
pub mod model;
pub mod search;
pub mod signing;
pub mod upload;
