pub mod types;
pub mod validate;
