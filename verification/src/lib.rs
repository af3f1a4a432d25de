//! The animated terminal background: a video, or a still image, drawn behind
//! the terminal's cells.
//!
//! A thread decodes frames ahead of time into a [`frame::FrameBuffer`]. Each
//! time the window is drawn, [`renderer::BackgroundRenderer`] takes out the
//! frame whose time has come and draws it. The calls into the decoding library
//! and the graphics context are made by the code around this crate; which calls
//! are made, and in which order, is decided here.

pub mod decoder;
pub mod decoder_laws;
pub mod duration;
pub mod error;
pub mod frame;
pub mod frame_laws;
pub mod gl;
pub mod renderer;
pub mod renderer_laws;
pub mod video;
pub mod video_laws;
