//! Version-aware core of a page-based document writer: the capability table of
//! the format versions, the coalescing of styled glyph runs into drawing
//! operators, and the deduplication of shared resources.

pub mod cache;
pub mod content;
pub mod document;
pub mod version;
