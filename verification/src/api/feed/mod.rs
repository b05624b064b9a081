pub mod category;
pub mod recommend;
