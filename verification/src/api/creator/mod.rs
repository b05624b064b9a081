pub mod auth;
pub mod info;
pub mod models;
pub mod utils;
