pub mod types;
pub mod transfer;
pub mod transition;
pub mod game;
pub mod emergency;
pub mod market;
pub mod laws;
