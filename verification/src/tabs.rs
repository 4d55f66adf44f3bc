pub mod attrs;
pub mod relationships;
pub mod runtime;
pub mod state;
pub mod types;
