//! What holds of the commands of the renderer, whatever state the graphics
//! context is in when they are carried out.

use vstd::prelude::*;
use std::sync::Arc;

use crate::duration::Duration;
use crate::error::Error;
use crate::frame::{Frame, Queue};
use crate::gl::{
    upload, BlendMode, GlCommand, GlState, Scaling, TexParameter, TEX_COORD_OFFSET, VERTEX_COUNT,
    VERTEX_SIZE,
};
use crate::renderer::{quad, setup, BackgroundRenderer};
use crate::video::BackgroundVideo;
use crate::video_laws::law_shown_frame_is_uploaded;

verus! {

/// Carrying out one list and then another is carrying out both as one.
proof fn lemma_concat(state: GlState, first: Seq<GlCommand>, second: Seq<GlCommand>, i: int)
    requires
        0 <= i <= first.len() + second.len(),
    ensures
        i <= first.len() ==> state.at(first + second, i) == state.at(first, i),
        i >= first.len() ==> state.at(first + second, i) == state.after_all(first).at(
            second,
            i - first.len(),
        ),
    decreases i,
{
    if i > 0 {
        lemma_concat(state, first, second, i - 1);
    }
}

/// Whether a vertex lies at `(x, y)`.
pub open spec fn is_corner(x: int, y: int) -> bool {
    exists|k: int| 0 <= k < quad().len() && #[trigger] quad()[k].x == x && quad()[k].y == y
}

/// The texture is shown upright over the whole screen: the corners of the
/// screen are the corners of the texture, left at left and top at top, and the
/// two triangles meet in a diagonal of the screen.
pub proof fn law_quad_is_upright(i: int)
    requires
        0 <= i < quad().len(),
    ensures
        quad().len() == VERTEX_COUNT,
        2 * quad()[i].u == quad()[i].x + 1,
        2 * quad()[i].v == 1 - quad()[i].y,
        forall|x: int, y: int|
            (x == -1 || x == 1) && (y == -1 || y == 1) ==> #[trigger] is_corner(x, y),
        quad()[0] == quad()[5],
        quad()[2] == quad()[3],
        quad()[0].x == -quad()[2].x && quad()[0].y == -quad()[2].y,
        quad()[1].x == -quad()[4].x && quad()[1].y == -quad()[4].y,
{
    assert forall|x: int, y: int| (x == -1 || x == 1) && (y == -1 || y == 1) implies #[trigger]
    is_corner(x, y) by {
        let k: int = if y == 1 {
            if x == -1 { 0 } else { 1 }
        } else {
            if x == 1 { 2 } else { 4 }
        };
        assert(quad()[k].x == x && quad()[k].y == y);
    }
}

/// The vertex buffer has room for all vertices and no more, and the two
/// attributes of a vertex, of two floats of four bytes each, lie one behind the
/// other and fill it.
pub proof fn law_vertex_layout(vao: u32, vbo: u32, texture: u32)
    ensures
        setup(vao, vbo, texture)[2] matches GlCommand::BufferVertices { size } && size
            == quad().len() * VERTEX_SIZE,
        setup(vao, vbo, texture)[3] matches GlCommand::VertexAttribPointer {
            index,
            components,
            stride,
            offset,
        } && index == 0 && stride == VERTEX_SIZE && offset == 0 && offset + components * 4
            == TEX_COORD_OFFSET,
        setup(vao, vbo, texture)[5] matches GlCommand::VertexAttribPointer {
            index,
            components,
            stride,
            offset,
        } && index == 1 && stride == VERTEX_SIZE && offset == TEX_COORD_OFFSET && offset
            + components * 4 == VERTEX_SIZE,
{
}

/// The setup fills and describes the renderer's own vertex buffer, for its own
/// vertex array, sets up its own texture, and leaves nothing bound. It touches
/// nothing else.
pub proof fn law_setup(state: GlState, vao: u32, vbo: u32, texture: u32)
    ensures
        forall|i: int|
            0 <= i < setup(vao, vbo, texture).len() ==> match #[trigger] setup(
                vao,
                vbo,
                texture,
            )[i] {
                GlCommand::BufferVertices { .. } => state.at(
                    setup(vao, vbo, texture),
                    i,
                ).array_buffer == vbo,
                GlCommand::VertexAttribPointer { .. } => {
                    &&& state.at(setup(vao, vbo, texture), i).array_buffer == vbo
                    &&& state.at(setup(vao, vbo, texture), i).vao == vao
                },
                GlCommand::EnableVertexAttribArray { .. } => state.at(
                    setup(vao, vbo, texture),
                    i,
                ).vao == vao,
                GlCommand::SetTexParameter { .. } => state.at(
                    setup(vao, vbo, texture),
                    i,
                ).texture == texture,
                _ => true,
            },
        state.after_all(setup(vao, vbo, texture)) == (GlState {
            vao: 0,
            array_buffer: 0,
            texture: 0,
            ..state
        }),
{
    reveal_with_fuel(GlState::at, 16);
}

/// An upload goes to the texture that it names, with rows as wide as the frame,
/// and leaves no texture bound and no row length set. It touches nothing else.
pub proof fn law_upload(state: GlState, texture: u32, width: i32, height: i32, frame: Arc<Frame>)
    ensures
        upload(texture, width, height, frame)[2] == (GlCommand::UploadFrame {
            width,
            height,
            frame,
        }),
        state.at(upload(texture, width, height, frame), 2).texture == texture,
        state.at(upload(texture, width, height, frame), 2).row_length == width,
        state.after_all(upload(texture, width, height, frame)) == (GlState {
            texture: 0,
            row_length: 0,
            ..state
        }),
{
    reveal_with_fuel(GlState::at, 6);
}

/// What is drawn, by a single command, is what the renderer's own objects hold:
/// all vertices of its vertex array, with its texture and its program, blended
/// by alpha.
pub proof fn law_draws_own_objects(
    state: GlState,
    renderer: BackgroundRenderer,
    narrower: bool,
    alpha: u32,
)
    ensures
        ({
            let commands = renderer.draw_commands(narrower, alpha);
            let i = 6 + renderer.uniforms(narrower, alpha).len() as int;
            let drawing = state.at(commands, i);
            &&& i < commands.len()
            &&& commands[i] == (GlCommand::DrawTriangles { first: 0, count: quad().len() as i32 })
            &&& forall|j: int|
                0 <= j < commands.len() && j != i ==> !(#[trigger] commands[j] is DrawTriangles)
            &&& drawing.vao == renderer.vao
            &&& drawing.texture == renderer.texture
            &&& drawing.program == renderer.program
            &&& drawing.blend == BlendMode::Alpha
        }),
{
    reveal_with_fuel(GlState::at, 8);
}

/// The shader is handed the size of the background once, after its program is
/// selected and right before the triangles are drawn; without a background it is
/// handed nothing.
pub proof fn law_uniforms_reach_program(
    state: GlState,
    renderer: BackgroundRenderer,
    narrower: bool,
    alpha: u32,
)
    ensures
        ({
            let commands = renderer.draw_commands(narrower, alpha);
            &&& renderer.background_video is Some ==> {
                &&& renderer.uniforms(narrower, alpha) == seq![commands[6]]
                &&& commands[6] is SizeInfo
                &&& state.at(commands, 6).program == renderer.program
                &&& commands[7] is DrawTriangles
            }
            &&& forall|j: int|
                0 <= j < commands.len() && #[trigger] commands[j] is SizeInfo ==> j == 6
                    && renderer.background_video is Some
        }),
{
    reveal_with_fuel(GlState::at, 8);
}

/// Drawing cleans up: no texture, vertex array or program stays bound, and
/// blending is reset. A row length that was not set stays unset, and the bound
/// vertex buffer is left alone.
pub proof fn law_draw_resets(
    state: GlState,
    renderer: BackgroundRenderer,
    queue: Option<Queue>,
    now: Duration,
    narrower: bool,
    alpha: u32,
)
    ensures
        state.after_all(
            renderer.frame_commands(queue, now) + renderer.draw_commands(narrower, alpha),
        ) == (GlState {
            vao: 0,
            texture: 0,
            program: 0,
            blend: BlendMode::SecondColor,
            row_length: if renderer.frame_commands(queue, now).len() > 0 {
                0
            } else {
                state.row_length
            },
            ..state
        }),
{
    let frame = renderer.frame_commands(queue, now);
    let draw = renderer.draw_commands(narrower, alpha);
    lemma_concat(state, frame, draw, (frame.len() + draw.len()) as int);
    match (renderer.background_video, queue) {
        (Some(video), Some(queue)) => match video.shown(queue, now) {
            Some(shown) => {
                law_upload(state, renderer.texture, video.width, video.height, shown);
            },
            None => {},
        },
        _ => {},
    }
    reveal_with_fuel(GlState::at, 13);
}

/// Drawing keeps the background and its size, and so keeps the renderer
/// drawing.
pub proof fn law_draw_keeps_background(
    renderer: BackgroundRenderer,
    queue: Option<Queue>,
    now: Duration,
)
    ensures
        renderer.drawn(queue, now).background_video is Some
            <==> renderer.background_video is Some,
        renderer.background_video matches Some(before) ==> (renderer.drawn(
            queue,
            now,
        ).background_video matches Some(after) && after.width == before.width && after.height
            == before.height && after.is_image == before.is_image),
{
}

/// A call that may change a renderer.
pub enum RendererOp {
    SetBackground { opened: Result<BackgroundVideo, Error> },
    /// Draws at a time, with what the buffer holds if there is one.
    Draw { queue: Option<Queue>, now: Duration },
}

/// The renderer after a series of calls.
pub open spec fn run_renderer(
    renderer: BackgroundRenderer,
    ops: Seq<RendererOp>,
) -> BackgroundRenderer
    decreases ops.len(),
{
    if ops.len() == 0 {
        renderer
    } else {
        let before = run_renderer(renderer, ops.drop_last());
        match ops.last() {
            RendererOp::SetBackground { opened } => before.with_background(opened),
            RendererOp::Draw { queue, now } => before.drawn(queue, now),
        }
    }
}

/// Whether a call sets a background that could be opened.
pub open spec fn sets(op: RendererOp) -> bool {
    op matches RendererOp::SetBackground { opened } && opened is Ok
}

/// A renderer that starts without a background has one if and only if one of
/// the calls so far set one that could be opened. It is the first of those, and
/// neither a later one nor drawing changes its size or kind. Nothing else of the
/// renderer changes.
pub proof fn law_first_background_stays(renderer: BackgroundRenderer, ops: Seq<RendererOp>)
    requires
        renderer.background_video is None,
    ensures
        run_renderer(renderer, ops).background_video is Some <==> exists|k: int|
            0 <= k < ops.len() && sets(#[trigger] ops[k]),
        run_renderer(renderer, ops).background_video matches Some(video) ==> exists|k: int|
            {
                &&& 0 <= k < ops.len()
                &&& forall|j: int| 0 <= j < k ==> !sets(#[trigger] ops[j])
                &&& #[trigger] ops[k] matches RendererOp::SetBackground { opened: Ok(first) }
                &&& video.width == first.width
                &&& video.height == first.height
                &&& video.is_image == first.is_image
            },
        run_renderer(renderer, ops) == (BackgroundRenderer {
            background_video: run_renderer(renderer, ops).background_video,
            ..renderer
        }),
    decreases ops.len(),
{
    if ops.len() > 0 {
        let before = ops.drop_last();
        law_first_background_stays(renderer, before);
        assert(forall|j: int| 0 <= j < before.len() ==> before[j] == ops[j]);
        let mid = run_renderer(renderer, before);
        if mid.background_video is Some {
            let video = mid.background_video->0;
            let k = choose|k: int|
                {
                    &&& 0 <= k < before.len()
                    &&& forall|j: int| 0 <= j < k ==> !sets(#[trigger] before[j])
                    &&& #[trigger] before[k] matches RendererOp::SetBackground { opened: Ok(first) }
                    &&& video.width == first.width
                    &&& video.height == first.height
                    &&& video.is_image == first.is_image
                };
            assert(before[k] == ops[k]);
            assert(sets(ops[k]));
            assert forall|j: int| 0 <= j < k implies !sets(#[trigger] ops[j]) by {
                assert(!sets(before[j]));
            }
        } else {
            assert forall|j: int| 0 <= j < before.len() implies !sets(#[trigger] ops[j]) by {
                assert(!sets(before[j]));
            }
            assert(ops.last() == ops[ops.len() - 1]);
        }
    }
}

/// A background that could be opened is taken as it is where there is none, and
/// nothing else of the renderer changes. Where there is one, or where it could
/// not be opened, nothing changes at all.
pub proof fn law_set_background(
    renderer: BackgroundRenderer,
    opened: Result<BackgroundVideo, Error>,
)
    ensures
        renderer.background_video is Some || opened is Err ==> renderer.with_background(opened)
            == renderer,
        renderer.background_video is None ==> (opened matches Ok(video)
            ==> renderer.with_background(opened) == (BackgroundRenderer {
            background_video: Some(video),
            ..renderer
        })),
{
}

/// A draw updates the background out of the buffer that it is given, and nothing
/// else of the renderer.
pub proof fn law_draw_updates_background(
    renderer: BackgroundRenderer,
    video: BackgroundVideo,
    queue: Queue,
    now: Duration,
)
    ensures
        renderer.background_video == Some(video) ==> renderer.drawn(Some(queue), now) == (
        BackgroundRenderer { background_video: Some(video.updated(queue, now)), ..renderer }),
        renderer.background_video is None ==> renderer.drawn(Some(queue), now) == renderer,
        renderer.drawn(None, now) == renderer,
{
}

/// Whenever there is a frame to show, a draw uploads it, and it alone, in the size
/// of the video: into the renderer's own texture, with rows as wide as the video,
/// before the triangles are drawn with that texture. This holds before playback
/// has started and after. Without a frame to show, or a background, nothing is
/// uploaded.
pub proof fn law_draw_uploads_frame(
    state: GlState,
    renderer: BackgroundRenderer,
    video: BackgroundVideo,
    queue: Queue,
    now: Duration,
    narrower: bool,
    alpha: u32,
)
    ensures
        ({
            let commands = renderer.frame_commands(Some(queue), now) + renderer.draw_commands(
                narrower,
                alpha,
            );
            &&& renderer.background_video == Some(video) ==> (video.shown(
                queue,
                now,
            ) matches Some(frame) ==> {
                &&& commands[2] == (GlCommand::UploadFrame {
                    width: video.width,
                    height: video.height,
                    frame,
                })
                &&& forall|j: int|
                    0 <= j < commands.len() && j != 2 ==> !(#[trigger] commands[j] is UploadFrame)
                &&& state.at(commands, 2).texture == renderer.texture
                &&& state.at(commands, 2).row_length == video.width
                &&& exists|d: int|
                    {
                        &&& 2 < d < commands.len()
                        &&& #[trigger] commands[d] is DrawTriangles
                        &&& state.at(commands, d).texture == renderer.texture
                    }
            })
            &&& renderer.background_video is None || renderer.background_video == Some(video)
                && video.shown(queue, now) is None ==> forall|j: int|
                0 <= j < commands.len() ==> !(#[trigger] commands[j] is UploadFrame)
        }),
        forall|j: int|
            0 <= j < (renderer.frame_commands(None, now) + renderer.draw_commands(
                narrower,
                alpha,
            )).len() ==> !((#[trigger] (renderer.frame_commands(None, now)
                + renderer.draw_commands(narrower, alpha))[j]) is UploadFrame),
{
    let first = renderer.frame_commands(Some(queue), now);
    let second = renderer.draw_commands(narrower, alpha);
    let commands = first + second;
    if renderer.background_video == Some(video) {
        law_shown_frame_is_uploaded(video, renderer.texture, queue, now);
        if let Some(frame) = video.shown(queue, now) {
            law_upload(state, renderer.texture, video.width, video.height, frame);
            law_draws_own_objects(state.after_all(first), renderer, narrower, alpha);
            let d = 11 + renderer.uniforms(narrower, alpha).len() as int;
            assert(first =~= upload(renderer.texture, video.width, video.height, frame));
            lemma_concat(state, first, second, 2);
            lemma_concat(state, first, second, d);
            assert(commands[d] == second[d - 5]);
            assert(commands[d] is DrawTriangles);
        }
    }
}

/// What a draw does after the upload, in full. The screen is cleared to black with
/// the given opacity. Blending is by alpha; the renderer's vertex array, program
/// and texture are bound. The shader is handed the size of the background if there
/// is one, with the opacity, and with the scaling for a video that is narrower
/// than the window or that is not. All vertices are drawn as triangles. Then
/// texture, vertex array and program are unbound, and blending is reset.
pub proof fn law_draw_in_full(renderer: BackgroundRenderer, narrower: bool, alpha: u32)
    ensures
        ({
            let commands = renderer.draw_commands(narrower, alpha);
            let d = if renderer.background_video is Some {
                7int
            } else {
                6
            };
            &&& commands.len() == d + 5
            &&& commands[0] == (GlCommand::ClearColor { alpha })
            &&& commands[1] is Clear
            &&& commands[2] == (GlCommand::Blend { mode: BlendMode::Alpha })
            &&& commands[3] == (GlCommand::BindVertexArray { vao: renderer.vao })
            &&& commands[4] == (GlCommand::UseProgram { program: renderer.program })
            &&& commands[5] == (GlCommand::BindTexture { texture: renderer.texture })
            &&& renderer.background_video matches Some(video) ==> commands[6] == (
            GlCommand::SizeInfo {
                location: renderer.u_size_info,
                width: video.width,
                height: video.height,
                scaling: if narrower {
                    Scaling::FullWidth
                } else {
                    Scaling::Plain
                },
                alpha,
            })
            &&& commands[d] == (GlCommand::DrawTriangles { first: 0, count: 6 })
            &&& commands[d + 1] == (GlCommand::BindTexture { texture: 0 })
            &&& commands[d + 2] == (GlCommand::BindVertexArray { vao: 0 })
            &&& commands[d + 3] == (GlCommand::UseProgram { program: 0 })
            &&& commands[d + 4] == (GlCommand::Blend { mode: BlendMode::SecondColor })
        }),
{
}

/// The shader is handed the size of the background exactly when there is one,
/// with the opacity that is asked for; it is drawn over the full width exactly
/// when it is narrower than the window.
pub proof fn law_size_is_handed_over(
    renderer: BackgroundRenderer,
    video: BackgroundVideo,
    narrower: bool,
    alpha: u32,
)
    ensures
        renderer.background_video is None ==> renderer.uniforms(narrower, alpha).len() == 0,
        renderer.background_video == Some(video) ==> {
            &&& renderer.uniforms(narrower, alpha).len() == 1
            &&& renderer.uniforms(narrower, alpha)[0] matches GlCommand::SizeInfo {
                location,
                width,
                height,
                scaling,
                alpha: opacity,
            }
            &&& location == renderer.u_size_info
            &&& width == video.width
            &&& height == video.height
            &&& opacity == alpha
            &&& scaling == Scaling::FullWidth <==> narrower
        },
{
}

/// The setup in full, besides what it binds: the two attributes of a vertex are
/// described and enabled, and the texture repeats in both directions and is
/// sampled at the nearest point.
pub proof fn law_setup_in_full(vao: u32, vbo: u32, texture: u32)
    ensures
        ({
            let commands = setup(vao, vbo, texture);
            &&& commands.len() == 15
            &&& commands[0] == (GlCommand::BindVertexArray { vao })
            &&& commands[1] == (GlCommand::BindArrayBuffer { vbo })
            &&& commands[2] == (GlCommand::BufferVertices { size: 96 })
            &&& commands[3] == (GlCommand::VertexAttribPointer {
                index: 0,
                components: 2,
                stride: 16,
                offset: 0,
            })
            &&& commands[4] == (GlCommand::EnableVertexAttribArray { index: 0 })
            &&& commands[5] == (GlCommand::VertexAttribPointer {
                index: 1,
                components: 2,
                stride: 16,
                offset: 8,
            })
            &&& commands[6] == (GlCommand::EnableVertexAttribArray { index: 1 })
            &&& commands[7] == (GlCommand::BindTexture { texture })
            &&& commands[8] == (GlCommand::SetTexParameter { parameter: TexParameter::WrapSRepeat })
            &&& commands[9] == (GlCommand::SetTexParameter { parameter: TexParameter::WrapTRepeat })
            &&& commands[10] == (GlCommand::SetTexParameter {
                parameter: TexParameter::MinFilterNearest,
            })
            &&& commands[11] == (GlCommand::SetTexParameter {
                parameter: TexParameter::MagFilterNearest,
            })
            &&& commands[12] == (GlCommand::BindVertexArray { vao: 0 })
            &&& commands[13] == (GlCommand::BindArrayBuffer { vbo: 0 })
            &&& commands[14] == (GlCommand::BindTexture { texture: 0 })
        }),
{
}

} // verus!
