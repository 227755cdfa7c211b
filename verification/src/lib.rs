//! An HPACK header-block encoder: the sender side of HTTP/2 header
//! compression (RFC 7541).
//!
//! The encoder turns a sequence of headers into a compact byte block that a
//! conforming HPACK decoder reconstructs exactly.  It keeps a dynamic indexing
//! table in sync with the peer, decides per header between indexed, literal
//! and never-indexed representations, and serializes prefix integers,
//! Huffman-coded strings and deferred table-size updates.
//!
//! Every contract below is stated over the wire-format specification
//! functions in [`wire`] and the table model in [`table`].
#![verifier::loop_isolation(false)]

pub mod buffer;
pub mod encoder;
pub mod header;
pub mod huffman;
pub mod laws;
pub mod static_table;
pub mod table;
pub mod wire;

pub use encoder::Encoder;
pub use encoder::EncoderError;
pub use encoder::SizeUpdate;
pub use header::Header;
pub use table::Index;
pub use table::Table;

