//! A small personal note store: notes are text files, each with a metadata
//! header and a free-form body.

pub mod api;
pub mod content;
pub mod dates;
pub mod error;
pub mod ident;
pub mod laws;
pub mod note;
pub mod path;
pub mod render;
pub mod store;
pub mod text;
