//! Host-side resource broker for sandboxed plugins, and the document store
//! that pairs a similarity index with the documents of its embeddings.

pub mod error;
pub mod handle;
pub mod resource_table;
pub mod table_laws;
pub mod vector_store;
pub mod broker;
pub mod store_laws;
