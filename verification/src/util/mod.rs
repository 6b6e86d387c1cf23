pub mod base64;
pub mod proxy;
pub mod version;

pub use version::crate_user_agent;
