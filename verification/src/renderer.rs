//! The renderer of the background.

use vstd::prelude::*;

use crate::duration::Duration;
use crate::error::Error;
use crate::frame::{FrameBuffer, Queue};
use crate::gl::{
    BlendMode, GlCommand, Scaling, TexParameter, Vertex, TEX_COORD_OFFSET, VERTEX_COUNT,
    VERTEX_SIZE,
};
use crate::video::BackgroundVideo;

verus! {

/// The vertex at `(x, y)` that shows `(u, v)`.
pub open spec fn vertex(x: int, y: int, u: int, v: int) -> Vertex {
    Vertex { x: x as i32, y: y as i32, u: u as i32, v: v as i32 }
}

/// Two triangles that cover the screen and show the texture upright.
pub open spec fn quad() -> Seq<Vertex> {
    seq![
        vertex(-1, 1, 0, 0),
        vertex(1, 1, 1, 0),
        vertex(1, -1, 1, 1),
        vertex(1, -1, 1, 1),
        vertex(-1, -1, 0, 1),
        vertex(-1, 1, 0, 0),
    ]
}

/// Fills the vertex buffer and describes it, sets how the texture is sampled,
/// and leaves nothing bound.
pub open spec fn setup(vao: u32, vbo: u32, texture: u32) -> Seq<GlCommand> {
    seq![
        GlCommand::BindVertexArray { vao },
        GlCommand::BindArrayBuffer { vbo },
        GlCommand::BufferVertices { size: 96 },
        GlCommand::VertexAttribPointer { index: 0, components: 2, stride: 16, offset: 0 },
        GlCommand::EnableVertexAttribArray { index: 0 },
        GlCommand::VertexAttribPointer { index: 1, components: 2, stride: 16, offset: 8 },
        GlCommand::EnableVertexAttribArray { index: 1 },
        GlCommand::BindTexture { texture },
        GlCommand::SetTexParameter { parameter: TexParameter::WrapSRepeat },
        GlCommand::SetTexParameter { parameter: TexParameter::WrapTRepeat },
        GlCommand::SetTexParameter { parameter: TexParameter::MinFilterNearest },
        GlCommand::SetTexParameter { parameter: TexParameter::MagFilterNearest },
        GlCommand::BindVertexArray { vao: 0 },
        GlCommand::BindArrayBuffer { vbo: 0 },
        GlCommand::BindTexture { texture: 0 },
    ]
}

/// The renderer of the background, and the background if there is one.
pub struct BackgroundRenderer {
    pub vao: u32,
    pub u_size_info: i32,
    pub program: u32,
    pub vertices: [Vertex; VERTEX_COUNT],
    pub texture: u32,
    pub background_video: Option<BackgroundVideo>,
}

impl BackgroundRenderer {
    /// A renderer without a background, that draws with these objects, and the
    /// commands that set them up.
    pub fn new(vao: u32, vbo: u32, texture: u32, program: u32, u_size_info: i32) -> (ret: (
        BackgroundRenderer,
        Vec<GlCommand>,
    ))
        ensures
            ret.0.vao == vao,
            ret.0.u_size_info == u_size_info,
            ret.0.program == program,
            ret.0.vertices@ == quad(),
            ret.0.texture == texture,
            ret.0.background_video is None,
            ret.1@ == setup(vao, vbo, texture),
    {
        let vertices = [
            Vertex { x: -1, y: 1, u: 0, v: 0 },
            Vertex { x: 1, y: 1, u: 1, v: 0 },
            Vertex { x: 1, y: -1, u: 1, v: 1 },
            Vertex { x: 1, y: -1, u: 1, v: 1 },
            Vertex { x: -1, y: -1, u: 0, v: 1 },
            Vertex { x: -1, y: 1, u: 0, v: 0 },
        ];
        let commands = vec![
            GlCommand::BindVertexArray { vao },
            // VBO binding is not part of VAO itself, but VBO binding is stored in attributes.
            GlCommand::BindArrayBuffer { vbo },
            GlCommand::BufferVertices { size: (VERTEX_COUNT * VERTEX_SIZE) as isize },
            // Position.
            GlCommand::VertexAttribPointer {
                index: 0,
                components: 2,
                stride: VERTEX_SIZE as i32,
                offset: 0,
            },
            GlCommand::EnableVertexAttribArray { index: 0 },
            // TexCoord
            GlCommand::VertexAttribPointer {
                index: 1,
                components: 2,
                stride: VERTEX_SIZE as i32,
                offset: TEX_COORD_OFFSET,
            },
            GlCommand::EnableVertexAttribArray { index: 1 },
            GlCommand::BindTexture { texture },
            GlCommand::SetTexParameter { parameter: TexParameter::WrapSRepeat },
            GlCommand::SetTexParameter { parameter: TexParameter::WrapTRepeat },
            GlCommand::SetTexParameter { parameter: TexParameter::MinFilterNearest },
            GlCommand::SetTexParameter { parameter: TexParameter::MagFilterNearest },
            // Reset buffer bindings.
            GlCommand::BindVertexArray { vao: 0 },
            GlCommand::BindArrayBuffer { vbo: 0 },
            GlCommand::BindTexture { texture: 0 },
        ];
        let renderer = BackgroundRenderer {
            vao,
            u_size_info,
            program,
            vertices,
            texture,
            background_video: None,
        };
        (renderer, commands)
    }

    /// Whether there is a background to draw.
    pub fn should_draw(&self) -> (draws: bool)
        ensures
            draws == (self.background_video is Some),
    {
        self.background_video.is_some()
    }

    /// The renderer with a background that could be opened, unless there was one
    /// already.
    pub open spec fn with_background(
        self,
        opened: Result<BackgroundVideo, Error>,
    ) -> BackgroundRenderer {
        match (self.background_video, opened) {
            (None, Ok(video)) => BackgroundRenderer { background_video: Some(video), ..self },
            _ => self,
        }
    }

    /// Takes a background that could be opened, unless there is one already.
    pub fn set_background(&mut self, opened: Result<BackgroundVideo, Error>)
        ensures
            *final(self) == old(self).with_background(opened),
            old(self).background_video is Some || opened is Err ==> *final(self) == *old(self),
            old(self).background_video is None ==> (opened matches Ok(video) ==> *final(self) == (
            BackgroundRenderer { background_video: Some(video), ..*old(self) })),
    {
        if self.background_video.is_some() {
            return;
        }
        if let Ok(video) = opened {
            self.background_video = Some(video);
        }
    }

    /// The commands that hand the shader the scale of the background, if there
    /// is one, and the opacity.
    pub open spec fn uniforms(self, narrower: bool, alpha: u32) -> Seq<GlCommand> {
        match self.background_video {
            Some(video) => seq![
                GlCommand::SizeInfo {
                    location: self.u_size_info,
                    width: video.width,
                    height: video.height,
                    scaling: if narrower {
                        Scaling::FullWidth
                    } else {
                        Scaling::Plain
                    },
                    alpha,
                },
            ],
            None => seq![],
        }
    }

    /// Hands the shader the scale of the background and the opacity. The caller
    /// says whether the video is narrower than the window.
    pub fn update_uniforms(&self, narrower: bool, alpha: u32) -> (commands: Vec<GlCommand>)
        ensures
            commands@ == self.uniforms(narrower, alpha),
    {
        match &self.background_video {
            Some(video) => {
                let scaling = if narrower {
                    Scaling::FullWidth
                } else {
                    Scaling::Plain
                };
                vec![
                    GlCommand::SizeInfo {
                        location: self.u_size_info,
                        width: video.width,
                        height: video.height,
                        scaling,
                        alpha,
                    },
                ]
            },
            None => vec![],
        }
    }

    /// The upload of the frame to show at `now`, where there is one.
    pub open spec fn frame_commands(self, queue: Option<Queue>, now: Duration) -> Seq<GlCommand> {
        match (self.background_video, queue) {
            (Some(video), Some(queue)) => video.update_commands(self.texture, queue, now),
            _ => seq![],
        }
    }

    /// The commands that draw what the texture holds.
    pub open spec fn draw_commands(self, narrower: bool, alpha: u32) -> Seq<GlCommand> {
        seq![
            GlCommand::ClearColor { alpha },
            GlCommand::Clear,
            GlCommand::Blend { mode: BlendMode::Alpha },
            GlCommand::BindVertexArray { vao: self.vao },
            GlCommand::UseProgram { program: self.program },
            GlCommand::BindTexture { texture: self.texture },
        ] + self.uniforms(narrower, alpha) + seq![
            GlCommand::DrawTriangles { first: 0, count: 6 },
            GlCommand::BindTexture { texture: 0 },
            GlCommand::BindVertexArray { vao: 0 },
            GlCommand::UseProgram { program: 0 },
            GlCommand::Blend { mode: BlendMode::SecondColor },
        ]
    }

    /// The background after it is drawn at `now`.
    pub open spec fn drawn(self, queue: Option<Queue>, now: Duration) -> BackgroundRenderer {
        match (self.background_video, queue) {
            (Some(video), Some(queue)) => BackgroundRenderer {
                background_video: Some(video.updated(queue, now)),
                ..self
            },
            _ => self,
        }
    }

    /// Draws the background as it is at `now`, out of the buffer that belongs
    /// to it. The buffer is not needed where there is nothing more to show.
    pub fn draw(
        &mut self,
        buffer: Option<&mut FrameBuffer>,
        now: Duration,
        narrower: bool,
        alpha: u32,
    ) -> (commands: Vec<GlCommand>)
        requires
            old(self).background_video matches Some(video) ==> video.settled() || (
            buffer matches Some(buffer) && buffer@.time_base.micros() > 0),
        ensures
            buffer matches Some(buffer) ==> {
                &&& *final(self) == old(self).drawn(Some(buffer@), now)
                &&& commands@ == old(self).frame_commands(Some(buffer@), now) + old(
                    self,
                ).draw_commands(narrower, alpha)
                &&& final(buffer)@ == (match old(self).background_video {
                    Some(video) => video.drained(buffer@, now),
                    None => buffer@,
                })
                &&& buffer@.wf() ==> final(buffer)@.wf()
            },
            buffer is None ==> *final(self) == *old(self) && commands@ == old(self).draw_commands(
                narrower,
                alpha,
            ),
    {
        let mut commands = match (self.background_video, buffer) {
            (Some(mut video), Some(buffer)) => {
                let commands = video.update_frame(self.texture, buffer, now);
                self.background_video = Some(video);
                commands
            },
            _ => vec![],
        };
        commands.push(GlCommand::ClearColor { alpha });
        commands.push(GlCommand::Clear);
        commands.push(GlCommand::Blend { mode: BlendMode::Alpha });
        // Bind VAO to enable vertex attribute slots.
        commands.push(GlCommand::BindVertexArray { vao: self.vao });
        commands.push(GlCommand::UseProgram { program: self.program });
        commands.push(GlCommand::BindTexture { texture: self.texture });

        let mut uniforms = self.update_uniforms(narrower, alpha);
        commands.append(&mut uniforms);

        // Draw all vertices as list of triangles.
        commands.push(GlCommand::DrawTriangles { first: 0, count: VERTEX_COUNT as i32 });

        // Disable program.
        commands.push(GlCommand::BindTexture { texture: 0 });
        commands.push(GlCommand::BindVertexArray { vao: 0 });
        commands.push(GlCommand::UseProgram { program: 0 });
        // Reset blending strategy.
        commands.push(GlCommand::Blend { mode: BlendMode::SecondColor });
        commands
    }
}

} // verus!
