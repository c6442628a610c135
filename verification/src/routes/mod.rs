//! What each endpoint decides, apart from the transport that carries it.

pub mod auth;
pub mod checkin;
pub mod meditation;
