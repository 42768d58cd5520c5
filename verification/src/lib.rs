//! A service that turns text into QR codes, and the rules it holds its
//! requests to.
//!
//! The heart of the crate is the way from raw input to a configuration that
//! is ready to render. `query` and `resolve` bring the two shapes of input
//! into strict options; `content`, `enums`, `colors` and `requests` hold the
//! rules on the text and on the options, each with the message it is refused
//! with; `contrast` and `linear` decide in exact arithmetic whether two
//! colours can be told apart. Every rule is stated as a function on plain
//! values, and every function that enforces one is proved to follow it.
//!
//! `render` and `service` hand the finished configuration to the encoders of
//! QR symbols, images and base64 and say what comes back; `config`, `state`,
//! `health` and `errors` are what the surrounding service needs; `text`,
//! `decimal` and `unicode` are the tools for working on text.

pub mod colors;
pub mod config;
pub mod content;
pub mod contrast;
pub mod decimal;
pub mod enums;
pub mod errors;
pub mod health;
pub mod linear;
pub mod query;
pub mod render;
pub mod requests;
pub mod resolve;
pub mod service;
pub mod state;
pub mod text;
pub mod unicode;
