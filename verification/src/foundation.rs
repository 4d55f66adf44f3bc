pub mod overlay;
pub mod roving;
pub mod shared;
pub mod state;
pub mod text;
