pub mod config;
pub mod index;
pub mod proxy;
