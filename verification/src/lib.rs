//! Transition-verification core for a collateralized cross-chain peg.
//!
//! A user locks native collateral, a designated signer moves funds on an
//! external chain (Bitcoin or Ethereum), and a pegged token is minted and
//! burned in lockstep. This crate holds the rules that decide whether a
//! proposed state change — a peg record consumed, at most one produced,
//! together with the other cells of the transaction and witness data — is a
//! legal step in the peg's lifecycle. Each transition verifier either accepts
//! or rejects; it never mutates anything itself.
//!
//! The host that executes transactions, the binary record codec and the
//! low-level SPV proof engines are external collaborators: the verifiers here
//! consume their results as plain values.

pub mod auction_signertimeout;
pub mod cell;
pub mod codec;
pub mod config;
pub mod error;
pub mod liquidation_signertimeout;
pub mod lockscript;
pub mod mint_xt;
pub mod pricing;
pub mod record;
pub mod since;
pub mod spv;
pub mod switch;
