pub mod crypto;
pub mod error;
pub mod handshake;
pub mod link;
pub mod message;
pub mod noise;
pub mod noise_pattern;
pub mod stream;
