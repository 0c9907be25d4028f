//! Session-cookie authentication: credential checks, session issuance and the
//! request gate, with every decision stated as a contract.

pub mod cookie;
pub mod gate;
pub mod laws;
pub mod login;
pub mod pages;
pub mod query;
pub mod response;
pub mod store;
pub mod text;
pub mod token;
