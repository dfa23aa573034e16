pub mod matrix;
pub mod store;
pub mod session;
pub mod query;
pub mod sampler;
