//! The blog backend: its status codes, models, permission checks, middlewares and handlers.
pub mod commons;
pub mod flows;
pub mod handlers;
pub mod middlewares;
pub mod models;
pub mod services;
pub mod utils;
