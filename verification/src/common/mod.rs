//! Shared definitions of the blog services: claims, errors, responses and helpers.
pub mod configs;
pub mod date_format;
pub mod cors;
pub mod extractors;
pub mod structs;
pub mod utils;
