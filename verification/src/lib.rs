pub mod controller;
pub mod lanscan;
pub mod launcher;
pub mod lifecycle;
pub mod liveness;
pub mod protocol;
pub mod state;
pub mod store;
pub mod worker;
pub mod yaml;
