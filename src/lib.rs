//! Extraction of textual content from files of many kinds, delivered as
//! labelled chunks: format routing, line splitting, spreadsheet row
//! rendering, PDF page numbering, document conversion outcomes and image
//! payloads.
pub mod chunk;
pub mod convert;
pub mod dispatch;
pub mod image;
pub mod numtext;
pub mod pdf;
pub mod pipeline;
pub mod sheet;
pub mod text;
