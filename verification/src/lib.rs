//! Batched image-to-text extraction over a chat-completion service.
//!
//! The library holds everything that can be stated and checked: the typed
//! response model, a decoder from a response body to that model, the request
//! payload builder, newline splitting and choice filtering for the printed
//! output, the fixed-size batching of inputs, and the credential gate.
//! Reading files, the HTTP call itself and the command line stay outside,
//! in the thin binary that drives the library.

mod jsonv;
pub mod model;
pub mod text;
pub mod tree;
pub mod decode;
pub mod request;
pub mod output;
pub mod driver;
