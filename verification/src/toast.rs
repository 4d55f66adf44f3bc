pub mod attrs;
pub mod browser;
pub mod runtime;
pub mod state;
pub mod types;
