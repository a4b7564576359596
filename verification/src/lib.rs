//! Character-grid animations: a scriptable canvas, frame capture and timed playback.
//!
//! A script paints on a canvas object ([`LuaBuffer`]) and captures the canvas
//! frame by frame into an [`Animator`], which then plays the frames in time.

pub mod animator;
pub mod blink;
pub mod buffer;
pub mod caret;
pub mod clock;
pub mod error;
pub mod host;
pub mod lua_buffer;
pub mod monitor;
pub mod preprocess;
pub mod text;

pub use animator::{Animator, DEFAULT_SPEED, MAX_FRAMES};
pub use blink::{conv_color, Blink, BufferInputMode};
pub use buffer::{
    AttributedChar, BitFont, Buffer, BufferType, Color, Layer, Palette, Position, Size,
    TextAttribute, INVISIBLE,
};
pub use caret::Caret;
pub use clock::Clock;
pub use error::ScriptError;
pub use lua_buffer::LuaBuffer;
pub use monitor::{BackgroundEffect, FloatBits, MonitorGlobals, MonitorSettings, Rgba};
pub use preprocess::{color_triple, preprocess, COLOR_LITERAL_PATTERN};
