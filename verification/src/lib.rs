//! Validation, rate normalisation, voice caching and session decisions for a
//! text-to-speech control surface that sits in front of a native engine.
pub mod error;
pub mod events;
pub mod models;
pub mod rate;
pub mod session;
pub mod text;
pub mod validator;
pub mod voices;
