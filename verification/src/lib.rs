//! Offline signing, bundling and replay of ledger requests.

pub mod account;
pub mod bundle;
pub mod capture;
pub mod encoding;
pub mod memo;
pub mod poller;
pub mod replay;
pub mod request;
