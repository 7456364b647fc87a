pub mod client;
pub mod config;
pub mod data;
pub mod decode;
pub mod json;
