//! The graphics calls that draw a background, as data.
//!
//! A list of commands is carried out in order by the code that holds the
//! graphics context.

use vstd::prelude::*;
use std::sync::Arc;

use crate::frame::Frame;

verus! {

/// A corner of a triangle: where it lies on the screen, and which point of the
/// texture it shows.
#[derive(Clone, Copy, Debug, PartialEq, Eq, Structural)]
pub struct Vertex {
    pub x: i32,
    pub y: i32,
    pub u: i32,
    pub v: i32,
}

/// The size of a vertex in the vertex buffer: four floats of four bytes each.
pub const VERTEX_SIZE: usize = 16;

/// Where the texture coordinates start in a vertex: behind two floats.
pub const TEX_COORD_OFFSET: usize = 8;

/// How many vertices there are.
pub const VERTEX_COUNT: usize = 6;

/// How a texture is sampled.
#[derive(Clone, Copy, Debug, PartialEq, Eq, Structural)]
pub enum TexParameter {
    WrapSRepeat,
    WrapTRepeat,
    MinFilterNearest,
    MagFilterNearest,
}

/// How what is drawn is blended with what is there.
#[derive(Clone, Copy, Debug, PartialEq, Eq, Structural)]
pub enum BlendMode {
    /// By the alpha of what is drawn; alphas add up.
    Alpha,
    /// By a color of its own for each pixel, as text is drawn.
    SecondColor,
}

/// How the video is scaled to the window.
#[derive(Clone, Copy, Debug, PartialEq, Eq, Structural)]
pub enum Scaling {
    /// In either direction by the ratio of the video's size to the window's.
    Plain,
    /// Over the whole width of the window, and the height by its ratio times
    /// the aspect ratio of the video.
    FullWidth,
}

/// A graphics call. Objects go by the names that the context gave them, where
/// zero is no object at all. An opacity is the bits of a float.
#[derive(Debug, PartialEq, Eq)]
pub enum GlCommand {
    /// Binds a vertex array.
    BindVertexArray { vao: u32 },
    /// Binds a buffer of vertices.
    BindArrayBuffer { vbo: u32 },
    /// Fills the bound buffer, of `size` bytes, with the renderer's vertices.
    BufferVertices { size: isize },
    /// Describes an attribute of a vertex: floats of the bound buffer.
    VertexAttribPointer { index: u32, components: i32, stride: i32, offset: usize },
    /// Enables an attribute of a vertex.
    EnableVertexAttribArray { index: u32 },
    /// Binds a texture.
    BindTexture { texture: u32 },
    /// Sets how the bound texture is sampled.
    SetTexParameter { parameter: TexParameter },
    /// Sets the number of pixels in a row of the images that are uploaded; with
    /// zero it is their width.
    UnpackRowLength { pixels: i32 },
    /// Uploads a frame, of three bytes to a pixel, to the bound texture.
    UploadFrame { width: i32, height: i32, frame: Arc<Frame> },
    /// Sets the color of an empty screen: black, with this opacity.
    ClearColor { alpha: u32 },
    /// Clears the screen.
    Clear,
    /// Sets how what is drawn is blended.
    Blend { mode: BlendMode },
    /// Selects a shader program.
    UseProgram { program: u32 },
    /// Hands the selected program the scale of a video of this size, and the
    /// opacity.
    SizeInfo { location: i32, width: i32, height: i32, scaling: Scaling, alpha: u32 },
    /// Draws triangles out of the bound vertex array.
    DrawTriangles { first: i32, count: i32 },
}

/// What the graphics context has bound and selected.
pub struct GlState {
    pub vao: u32,
    pub array_buffer: u32,
    pub texture: u32,
    pub program: u32,
    pub row_length: i32,
    pub blend: BlendMode,
}

impl GlState {
    /// The state after one command.
    pub open spec fn after(self, command: GlCommand) -> GlState {
        match command {
            GlCommand::BindVertexArray { vao } => GlState { vao, ..self },
            GlCommand::BindArrayBuffer { vbo } => GlState { array_buffer: vbo, ..self },
            GlCommand::BindTexture { texture } => GlState { texture, ..self },
            GlCommand::UseProgram { program } => GlState { program, ..self },
            GlCommand::UnpackRowLength { pixels } => GlState { row_length: pixels, ..self },
            GlCommand::Blend { mode } => GlState { blend: mode, ..self },
            _ => self,
        }
    }

    /// The state in which the command at `i` of a list is carried out.
    pub open spec fn at(self, commands: Seq<GlCommand>, i: int) -> GlState
        decreases i,
    {
        if i <= 0 {
            self
        } else {
            self.at(commands, i - 1).after(commands[i - 1])
        }
    }

    /// The state after a list of commands.
    pub open spec fn after_all(self, commands: Seq<GlCommand>) -> GlState {
        self.at(commands, commands.len() as int)
    }
}

/// The upload of a frame to a texture.
pub open spec fn upload(texture: u32, width: i32, height: i32, frame: Arc<Frame>) -> Seq<
    GlCommand,
> {
    seq![
        GlCommand::UnpackRowLength { pixels: width },
        GlCommand::BindTexture { texture },
        GlCommand::UploadFrame { width, height, frame },
        GlCommand::BindTexture { texture: 0 },
        GlCommand::UnpackRowLength { pixels: 0 },
    ]
}

} // verus!
