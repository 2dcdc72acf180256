//! Verified core of an OpenAI-compatible proxy in front of the Copilot chat protocol.
pub mod config;
pub mod text;
pub mod types;
pub mod error;
pub mod model;
pub mod protocol;
pub mod adapter;
pub mod stream;
pub mod image;
pub mod requests;
pub mod auth;
pub mod id;
pub mod chat;
pub mod ws;
pub mod session;
