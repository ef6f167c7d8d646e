pub mod bridge;
pub mod error;
pub mod model;
pub mod protocol;
pub mod state;
