//! A small document-composition library: an ordered sequence of content
//! elements (text, image reference, newline, tab) rendered to a flat string,
//! with a memoized render that every mutation invalidates, and a pluggable
//! persistence sink for the rendered text.

pub mod document;
pub mod editor;
pub mod element;
pub mod storage;
