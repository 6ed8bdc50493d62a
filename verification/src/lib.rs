//! A small query-answering service core.
//!
//! The library holds the verified logic of an HTTP service that answers a
//! natural-language query by embedding it, searching a vector store for the
//! nearest document, and returning that document's content when the match is
//! confident enough.  The network adapters (embedding service, vector store)
//! and the HTTP listener are external collaborators: the library decides, the
//! surrounding binary performs.

pub mod json;
pub mod resolver;
pub mod router;
pub mod schema;
pub mod score;
mod text;
