//! Batches of encryption and decryption requests.

pub mod job;
pub mod laws;
pub mod pool;
pub mod request;
pub mod run;
pub mod settings;
pub mod trace;
