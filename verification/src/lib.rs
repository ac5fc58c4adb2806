//! Core of a small personal blog server.
//!
//! A manifest file lists the blog entries in display order, each as a
//! Markdown filename plus a display title.  From the manifest this crate
//! builds an ordered index of entry descriptors (URL key, source path,
//! title), answers key lookups against that index, and renders entry
//! sources from Markdown to HTML.  All file and network traffic stays with
//! the embedding application; this crate works on plain values.

pub mod blog;
pub mod errors;
pub mod manifest;
pub mod render;
pub mod resources;
pub mod text;
