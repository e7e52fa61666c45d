pub mod token_store;
pub mod middleware;
pub mod github_oauth;
