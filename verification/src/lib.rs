//! Text mocking: alternating-case capitalization of lines of text, and image macros, that
//! is pictures with captions on them.
//!
//! The capitalization is in [`capital`]. For image macros, [`layout`] says how a caption
//! is to be laid out and takes what a layout engine answers; [`glyph`] keeps the pictures
//! of glyphs, each made once; [`render`] paints them into a coverage mask ([`mask`]);
//! [`compose`] lays a mask on a picture ([`canvas`]) in one colour; and [`imagemacro`]
//! puts these together.

pub mod canvas;
pub mod capital;
pub mod clip;
pub mod compose;
pub mod geometry;
pub mod glyph;
pub mod imagemacro;
pub mod input;
pub mod layout;
pub mod mask;
pub mod render;
pub mod text;
