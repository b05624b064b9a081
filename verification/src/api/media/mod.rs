pub mod download;
pub mod images;
pub mod video;
