pub mod client;
pub mod decimal;
pub mod decode;
pub mod envelope;
pub mod error;
pub mod json;
pub mod params;

pub use client::Client;
pub use error::Error;
pub use params::Params;
