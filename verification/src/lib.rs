//! Token lifecycle and permission resolution for a role-gated API.
//!
//! The crate issues opaque bearer secrets, keeps their digests in a token
//! table with a validity window, resolves a presented secret to its owner's
//! current permission tier, and decides for every protected request whether
//! it may proceed.
//!
//! * [`error`], [`failure`], [`http`]: the kinds of error, what a failed
//!   store operation reports, and the one mapping from an error to a status.
//! * [`permission`], [`models`]: the ordered tiers, the rows and the bodies.
//! * [`digest`], [`random`], [`password`], [`pattern`]: the hashes, the
//!   random source and the pattern search, each reached through a trusted
//!   wrapper whose contract names what the call returns.
//! * [`model`], [`store`]: the tables as a mathematical value, and the
//!   executable store that implements it.
//! * [`tokens`], [`auth`], [`session`]: storing and looking up tokens, the
//!   guard of the protected routes, and login and exchange.
//! * [`users`], [`zipcodes`], [`state`]: the managed resources and the
//!   process-wide context.
//! * [`theorems`]: what the service guarantees.
//!
//! Instants are whole seconds on the caller's clock; every function that
//! depends on the time takes the instant as an argument.
#![allow(non_snake_case)]

pub mod error;
pub mod failure;
pub mod http;
pub mod permission;
pub mod models;
pub mod text;
pub mod digest;
pub mod random;
pub mod password;
pub mod pattern;
pub mod model;
pub mod store;
pub mod state;
pub mod tokens;
pub mod auth;
pub mod session;
pub mod users;
pub mod zipcodes;
pub mod theorems;
