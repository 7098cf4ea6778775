//! The extractors that come with the library.

pub mod content_length_limit;
pub mod query;
pub mod typed_header;
