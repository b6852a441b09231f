//! A persistent key-value store bound to one named bucket of a `kv` store,
//! with the conversions between UTF-8 text and the engine's raw bytes.

pub mod engine;
pub mod error;
pub mod laws;
pub mod model;
pub mod store;
pub mod text;

pub use error::{KvError, Op};
pub use store::{Context, CrabyKv, BUCKET_NAME};
