//! Verified core of the remote-access backend for WARP chargers: charger
//! identifiers, key validation, authentication decisions and the rules
//! that the HTTP routes apply around the database.

pub mod charger_uid;
pub mod encoding;
pub mod validation;
pub mod branding;
pub mod calendar;
pub mod error;
pub mod text;
pub mod ids;
pub mod token;
pub mod jwt;
pub mod random;
pub mod password;
pub mod wireguard;
pub mod management;
pub mod rate_limit;
pub mod devices;
pub mod grouping;
pub mod cleanup;
pub mod chargers;
pub mod mail;
pub mod accounts;
pub mod salt_cache;
pub mod models;
pub mod session;
