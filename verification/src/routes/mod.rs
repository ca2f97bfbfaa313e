//! The HTTP handlers' decisions, one module per route.
pub mod balance;
pub mod block;
pub mod state;
pub mod transaction;
pub mod transfer;
pub mod contacts;
pub mod faucet;
pub mod health;
pub mod identity;
pub mod sync;
pub mod inbox;
