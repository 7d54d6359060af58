//! A small terminal text editor, as a library: the row and document model,
//! viewport scrolling, screen rendering, the escape-sequence key decoder and
//! the key dispatcher. Every function states its behaviour as a contract over
//! sequences of characters, and the contracts are proved.

pub mod append_buffer;
pub mod document;
pub mod editor;
pub mod keys;
pub mod model;
pub mod row;
pub mod screen;
pub mod terminal;
pub mod text;
