//! A line-oriented text buffer for a terminal editor.
//!
//! The buffer stores a document as an ordered sequence of lines, keeps a
//! cursor in document coordinates, and maps the document onto a fixed
//! rectangular viewport through a scroll offset.  Every edit and movement
//! operation is specified against a mathematical model of that state and
//! proved to keep the cursor valid and visible.

pub mod buffer;
pub mod chars;
pub mod geom;
pub mod laws;
pub mod model;
