//! Building blocks shared by the models and the request handlers.

pub mod authenticate_request;
pub mod custom_response;
pub mod date;
pub mod models;
pub mod oid;
pub mod pagination;
pub mod text;
pub mod token;
