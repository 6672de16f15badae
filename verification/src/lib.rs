//! Authentication and authorization core: irreversible password hashing,
//! stateless signed-token issuance and validation, registration and login
//! orchestration over a pluggable user store, request-time credential
//! extraction and role gating, and translation of internal failure kinds
//! into a stable external error vocabulary.

pub mod api_error;
pub mod application;
pub mod config;
pub mod domain;
pub mod dto;
pub mod hashing;
pub mod pipeline;
pub mod service;
pub mod store;
pub mod token;
