pub mod error;
pub mod federation;
pub mod laws;
pub mod memory;
pub mod model;
