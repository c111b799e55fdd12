//! Core logic of a terminal file browser: a directory listing with a cyclic
//! selection cursor, a scrollable document viewer for previewing file
//! contents, and the pure windowing function that slices a document for
//! display. Terminal rendering and filesystem access live outside the
//! library; every function here is verified.

pub mod browser;
pub mod document;
pub mod document_viewer;
pub mod paths;
pub mod stateful_table;
