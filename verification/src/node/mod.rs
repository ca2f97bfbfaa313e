//! Bringing the node up: its wallet seed, its identity and its registration.
pub mod genesis;
pub mod http;
pub mod identity;
pub mod identity_run;
pub mod registration;
pub mod startup;
pub mod wallet_seed;
