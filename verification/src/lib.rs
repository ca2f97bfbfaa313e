//! Request handling, start-up order and configuration rules of a DSM exchange node.
pub mod config;
pub mod error;
pub mod hexcode;
pub mod history;
pub mod json;
pub mod node;
pub mod reply;
pub mod routes;
pub mod search;
pub mod text;
