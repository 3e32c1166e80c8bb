pub mod base_url;
pub mod client;
