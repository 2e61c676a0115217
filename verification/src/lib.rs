//! A url shortener: short codes, the records it stores, and the request handling that decides
//! what is stored and what is answered.
pub mod code;
pub mod config;
pub mod error;
pub mod models;
pub mod resources;
