//! The account services of the blog: claims with a nickname, identity, errors, payloads, tokens and helpers.
pub mod claims;
pub mod configs;
pub mod identity;
pub mod immortal_error;
pub mod immortal_response;
pub mod middlewares;
pub mod pojos;
pub mod utils;
