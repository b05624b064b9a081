pub mod common;
pub mod creator;
pub mod feed;
pub mod login;
pub mod media;
pub mod notification;
pub mod search;
pub mod user;

pub use common::XhsApiClient;
