//! A small terminal text viewer: its row model (tab expansion), the viewport
//! renderer, the key mapper, and the cursor and scroll coordinator, with their
//! contracts.
pub mod row;
pub mod screen;
pub mod keys;
pub mod editor;
