//! The blog services as a library: shared claims, errors and responses, permission checks,
//! tokens, cache keys and the decisions of the backend's handlers and middlewares.
pub mod backend;
pub mod common;
pub mod commons;
pub mod decimal;
pub mod permission_levels;
pub mod token;
