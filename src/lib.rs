//! A handle table of text tokenizers, with JSON payloads for each outcome of
//! encoding text.
//!
//! Tokenizers are built from serialized model bytes and stored behind small
//! integer handles. `0` is never issued and stands for "no tokenizer".
//! Encoding text through a handle yields one of three JSON texts: `{}` when
//! the handle names no tokenizer, the token ids and attention mask when the
//! encoder succeeds, or a fixed payload with empty arrays when it fails.

pub mod json;
pub mod engine;
pub mod registry;
