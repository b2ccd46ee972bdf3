//! Request handling for a small subscription service: decoding and validating
//! subscription forms, and deciding the reply of each endpoint.
pub mod form;
pub mod handlers;
