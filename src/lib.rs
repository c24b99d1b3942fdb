//! Cursor navigation and key handling for an inline text editor.
//!
//! The editor keeps one cursor over a text whose glyphs have been laid out
//! into boxes and visual lines. Horizontal moves and edits work on character
//! offsets; vertical moves pick the glyph of the neighbouring line that lies
//! closest to the glyph under the cursor.
pub mod geometry;
pub mod padding;
pub mod text_editor;

pub use geometry::{GlyphBox, LineSpan, Point};
pub use padding::Padding;
pub use text_editor::{text_editor, KeyPress, TextEditor, TextEditorState};
