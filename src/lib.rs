//! Build a project README in markdown from a handful of answers.
//!
//! [`document`] holds the README's fields, [`render`] turns them into
//! markdown, and [`survey`] decides which question to ask next and how
//! each answer changes the document.

pub mod document;
pub mod render;
pub mod survey;
