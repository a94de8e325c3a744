pub mod model;
pub mod observer;
