pub mod models;
pub mod manager;
pub mod api;
pub mod commands;
pub mod steps;
