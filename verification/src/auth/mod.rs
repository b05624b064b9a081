pub mod browser;
pub mod credentials;
pub mod service;
pub mod storage;

pub use credentials::ApiSignature;
pub use credentials::UserCredentials;
pub use service::AuthService;
pub use storage::CredentialStorage;
