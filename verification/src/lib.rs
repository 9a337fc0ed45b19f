//! Decision logic of a constant-product automated market maker.
//!
//! The pool holds two vaults of tokens X and Y and issues LP tokens against
//! them. Each instruction (deposit, withdraw, swap) first validates the request
//! against the pool's state, asks the constant-product curve for amounts where
//! one is needed, checks slippage bounds, and then yields the exact list of
//! token-program instructions that carry it out. The library only decides;
//! the caller performs the curve computation and the token-program calls.
pub mod error;
pub mod state;
pub mod curve;
pub mod token;
pub mod deposit;
pub mod withdraw;
pub mod swap;
pub mod laws;
