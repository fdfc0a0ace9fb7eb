pub mod models;
pub mod store;
pub mod handler;
