//! Language identification metadata for web-archive records.
//!
//! The crate turns raw ranked label/probability output of an external
//! linear text classifier into validated, cleaned identification results,
//! and pairs archival record content and headers with those results in an
//! immutable document model.

mod classify;
mod document;
mod error;
mod identifiers;

pub use classify::clean_prediction;
pub use classify::conclude_prediction;
pub use classify::select_identifications;
pub use classify::valid_len;
pub use classify::MIN_SENTENCE_LEN;
pub use document::header_entries;
pub use document::lossy_text_of;
pub use document::record_id_of;
pub use document::render_header_pairs;
pub use document::spec_first_newline;
pub use document::spec_lines;
pub use document::spec_trim_cr;
pub use document::split_lines;
pub use document::Document;
pub use document::Metadata;
pub use error::Error;
pub use identifiers::spec_cleaned_label;
pub use identifiers::LABEL_PREFIX_LEN;
pub use identifiers::Identification;
