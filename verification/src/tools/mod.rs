pub mod explore;
pub mod search;
pub mod sync;
