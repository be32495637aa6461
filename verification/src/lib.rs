pub mod controller;
pub mod render;
pub mod store;
