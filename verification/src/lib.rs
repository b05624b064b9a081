//! Session and request-signing orchestration for the platform's web API.
//!
//! The library manages one user's session: it stores and serves the session's
//! credential, drives the QR login that obtains one, gets every outbound
//! request signed, by the signing collaborator first and by a captured
//! signature as a fallback, and classifies the platform's answers.
//!
//! Nothing in the library opens a socket, a file or a process. Every function
//! takes what was read and returns what is to be sent, so that each decision
//! is a function with a contract, which Verus proves.
//!
//! - [`auth`]: credentials, the credential store and the session manager.
//! - [`signature`]: the signing collaborator's interface.
//! - [`api`]: the request orchestrator, the login protocol and the endpoints.
//! - [`cookies`], [`text`]: cookie sets and text operations.
//! - [`json`], [`encoding`], [`random`], [`clock`]: what is taken on trust
//!   from the crates `serde_json`, `urlencoding`, `rand` and `chrono`.

pub mod agent_manager;
pub mod api;
pub mod auth;
pub mod clock;
pub mod config;
pub mod cookies;
pub mod encoding;
pub mod error;
pub mod json;
pub mod models;
pub mod random;
pub mod signature;
pub mod text;
pub mod utils;

pub use auth::AuthService;
pub use auth::CredentialStorage;
pub use auth::UserCredentials;
