pub mod client;
pub mod models;
pub mod queries;
pub mod schema;
