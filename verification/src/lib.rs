pub mod config;
pub mod decimal;
pub mod json;
pub mod number;
pub mod platform;
pub mod text;
pub mod watcher;
