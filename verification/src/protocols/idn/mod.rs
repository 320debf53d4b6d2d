//! ILDA Digital Network.
pub mod backend;
pub mod backend_laws;
pub mod chunk;
pub mod chunk_laws;
pub mod pool;
pub mod pool_laws;
pub mod stream;
pub mod stream_laws;
pub mod worker;
pub mod worker_laws;
pub mod worker_order;

pub use backend::{default_capabilities, IdnBackend};
