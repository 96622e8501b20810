pub mod api;
pub mod auth;
pub mod central;
pub mod checkpoint;
pub mod config;
pub mod k8s;
pub mod lifecycle;
pub mod pod;
pub mod preview;
pub mod state;
