pub mod parsers;
pub mod base64;
pub mod client;
pub mod ingest;
pub mod sync;
pub mod org_sync;
