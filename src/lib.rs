//! Styled monospaced bitmap text: drawing and measuring text made of
//! fixed-width glyph cells onto an abstract pixel sink.
pub mod draw_target;
pub mod font;
pub mod geometry;
pub mod lemmas;
pub mod mono_text_style;
pub mod text;
