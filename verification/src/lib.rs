pub mod lifecycle;
pub mod migrate;
pub mod quota;
pub mod store;
