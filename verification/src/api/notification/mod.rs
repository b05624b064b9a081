pub mod connections;
pub mod likes;
pub mod mentions;
