//! A small URL-shortening service core: URL validation, random base-62 short
//! codes, a key-value store model, and the request handlers that tie them
//! together. Each handler's reply is specified exactly against a spec-level
//! model of the HTTP response.

pub mod reply;
pub mod errors;
pub mod codegen;
pub mod validate;
pub mod store;
pub mod handlers;
pub mod laws;

pub use codegen::generate_short_code;
pub use codegen::encode_short_code;
pub use errors::AppError;
pub use errors::StoreError;
pub use handlers::Service;
pub use handlers::health_outcome_reply;
pub use handlers::resolve_outcome_reply;
pub use handlers::shorten_outcome_reply;
pub use reply::Body;
pub use reply::HttpReply;
pub use reply::ShortenedUrl;
pub use reply::index;
pub use store::MemStore;
pub use validate::validate_url;
