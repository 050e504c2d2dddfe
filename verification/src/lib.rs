//! Core of a two-factor-authentication service: issuing base32-encoded TOTP
//! secrets, computing and checking time-stepped one-time codes, and keeping
//! per-user credential state behind a storage-agnostic repository contract.

use vstd::prelude::*;

pub mod db;
pub mod models;
pub mod otp_handlers;
pub mod response;
pub mod totp;

verus! {

/// The storage back ends a server can be started with.
pub enum DB {
    Postgres,
    Mongo,
}

} // verus!
