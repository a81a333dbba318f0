pub mod backend;
pub mod laws;
mod lock;
pub mod slot;
pub mod state;
