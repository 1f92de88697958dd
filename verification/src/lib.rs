//! Verified core of the perspective tool: the fSpy project file container,
//! how the window and its canvases answer messages, keys and the mouse, the
//! point editor, the context menu, and symmetric descriptor matching.

pub mod buffer;
pub mod context_menu;
pub mod decoder;
pub mod draw_canvas;
pub mod editor;
pub mod encoder;
pub mod fspy_format;
pub mod hits;
pub mod keys;
pub mod matching;
pub mod model;
pub mod points;
pub mod pose_canvas;
pub mod twist_canvas;
pub mod window;
