//! Reconstruction of a paginated remote document into a single portable
//! multi-page output: per-page raster images plus an invisible, searchable
//! text layer of positioned glyphs.
//!
//! The crate is the verified core of the tool: the page-assembly state
//! machine with its termination policy, the geometric compositing of glyph
//! runs onto page coordinates, the decoding of annotation payloads, and the
//! validation of credential headers. Transport, the raster codec and the
//! document writer are outside collaborators reached through a few narrow
//! trusted declarations; everything decided about their results is proved.

pub mod annot;
pub mod assemble;
pub mod compose;
pub mod errors;
pub mod glyphs;
pub mod headers;
pub mod progress;
pub mod raster;
