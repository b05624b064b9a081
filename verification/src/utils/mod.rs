pub mod qrcode;
pub mod sign;
