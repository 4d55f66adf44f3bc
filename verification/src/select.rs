pub mod attrs;
pub mod relationships;
pub mod runtime;
pub mod state;
pub mod trigger;
pub mod types;
