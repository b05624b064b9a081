pub mod feed;
pub mod login;
pub mod search;
pub mod user;
