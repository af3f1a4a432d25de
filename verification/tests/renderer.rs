use std::sync::Arc;

use alacritty_background::duration::Duration;
use alacritty_background::error::Error;
use alacritty_background::frame::{Frame, FrameBuffer};
use alacritty_background::gl::{BlendMode, GlCommand, Scaling, TexParameter, Vertex};
use alacritty_background::renderer::BackgroundRenderer;
use alacritty_background::video::BackgroundVideo;

const ALPHA: u32 = 0x3f00_0000;

fn video() -> BackgroundVideo {
    BackgroundVideo { instant: None, is_image: false, width: 640, height: 480 }
}

fn renderer() -> BackgroundRenderer {
    BackgroundRenderer::new(1, 2, 3, 4, 5).0
}

fn buffer() -> FrameBuffer {
    let mut buffer =
        FrameBuffer::new(Duration { nanos: 1_000_000 }, Duration { nanos: 1_000_000_000 });
    assert!(buffer.put(Arc::new(Frame { data: vec![9], pts: 0 })));
    buffer
}

fn size_info(scaling: Scaling) -> GlCommand {
    GlCommand::SizeInfo { location: 5, width: 640, height: 480, scaling, alpha: ALPHA }
}

fn before() -> Vec<GlCommand> {
    vec![
        GlCommand::ClearColor { alpha: ALPHA },
        GlCommand::Clear,
        GlCommand::Blend { mode: BlendMode::Alpha },
        GlCommand::BindVertexArray { vao: 1 },
        GlCommand::UseProgram { program: 4 },
        GlCommand::BindTexture { texture: 3 },
    ]
}

fn after() -> Vec<GlCommand> {
    vec![
        GlCommand::DrawTriangles { first: 0, count: 6 },
        GlCommand::BindTexture { texture: 0 },
        GlCommand::BindVertexArray { vao: 0 },
        GlCommand::UseProgram { program: 0 },
        GlCommand::Blend { mode: BlendMode::SecondColor },
    ]
}

#[test]
fn setup_of_the_renderer() {
    let (renderer, commands) = BackgroundRenderer::new(1, 2, 3, 4, 5);
    assert_eq!((renderer.vao, renderer.texture, renderer.program), (1, 3, 4));
    assert_eq!(renderer.u_size_info, 5);
    assert_eq!(
        commands,
        vec![
            GlCommand::BindVertexArray { vao: 1 },
            GlCommand::BindArrayBuffer { vbo: 2 },
            GlCommand::BufferVertices { size: 96 },
            GlCommand::VertexAttribPointer { index: 0, components: 2, stride: 16, offset: 0 },
            GlCommand::EnableVertexAttribArray { index: 0 },
            GlCommand::VertexAttribPointer { index: 1, components: 2, stride: 16, offset: 8 },
            GlCommand::EnableVertexAttribArray { index: 1 },
            GlCommand::BindTexture { texture: 3 },
            GlCommand::SetTexParameter { parameter: TexParameter::WrapSRepeat },
            GlCommand::SetTexParameter { parameter: TexParameter::WrapTRepeat },
            GlCommand::SetTexParameter { parameter: TexParameter::MinFilterNearest },
            GlCommand::SetTexParameter { parameter: TexParameter::MagFilterNearest },
            GlCommand::BindVertexArray { vao: 0 },
            GlCommand::BindArrayBuffer { vbo: 0 },
            GlCommand::BindTexture { texture: 0 },
        ]
    );
}

#[test]
fn quad_covers_the_screen() {
    assert_eq!(
        renderer().vertices,
        [
            Vertex { x: -1, y: 1, u: 0, v: 0 },
            Vertex { x: 1, y: 1, u: 1, v: 0 },
            Vertex { x: 1, y: -1, u: 1, v: 1 },
            Vertex { x: 1, y: -1, u: 1, v: 1 },
            Vertex { x: -1, y: -1, u: 0, v: 1 },
            Vertex { x: -1, y: 1, u: 0, v: 0 },
        ]
    );
}

#[test]
fn background_is_set_once() {
    let mut renderer = renderer();
    assert!(!renderer.should_draw());
    renderer.set_background(Err(Error::OpenInput));
    assert!(!renderer.should_draw());
    renderer.set_background(Ok(video()));
    assert!(renderer.should_draw());
    let other = BackgroundVideo { width: 1, ..video() };
    renderer.set_background(Ok(other));
    assert_eq!(renderer.background_video, Some(video()));
    renderer.set_background(Err(Error::OpenInput));
    assert_eq!(renderer.background_video, Some(video()));
}

#[test]
fn uniforms_of_a_background() {
    let mut renderer = renderer();
    assert_eq!(renderer.update_uniforms(true, ALPHA), vec![]);
    renderer.set_background(Ok(video()));
    assert_eq!(renderer.update_uniforms(false, ALPHA), vec![size_info(Scaling::Plain)]);
    assert_eq!(renderer.update_uniforms(true, ALPHA), vec![size_info(Scaling::FullWidth)]);
}

#[test]
fn draw_without_a_background() {
    let mut renderer = renderer();
    let mut expected = before();
    expected.extend(after());
    assert_eq!(renderer.draw(None, Duration::zero(), true, ALPHA), expected);
    assert!(!renderer.should_draw());
}

#[test]
fn draw_without_a_background_leaves_the_buffer() {
    let mut renderer = renderer();
    let mut buffer = buffer();
    let now = Duration { nanos: 900_000_000 };
    assert_eq!(renderer.draw(Some(&mut buffer), now, true, ALPHA).len(), 11);
    assert_eq!(buffer.take(Duration::zero()).0.unwrap().pts, 0);
}

#[test]
fn draw_uploads_the_frame_first() {
    let mut renderer = renderer();
    renderer.set_background(Ok(video()));
    let mut buffer = buffer();
    let now = Duration { nanos: 77 };
    let mut expected = vec![
        GlCommand::UnpackRowLength { pixels: 640 },
        GlCommand::BindTexture { texture: 3 },
        GlCommand::UploadFrame {
            width: 640,
            height: 480,
            frame: Arc::new(Frame { data: vec![9], pts: 0 }),
        },
        GlCommand::BindTexture { texture: 0 },
        GlCommand::UnpackRowLength { pixels: 0 },
    ];
    expected.extend(before());
    expected.push(size_info(Scaling::Plain));
    expected.extend(after());
    assert_eq!(renderer.draw(Some(&mut buffer), now, false, ALPHA), expected);
    assert_eq!(renderer.background_video.unwrap().instant, Some(now));
}

#[test]
fn draw_without_a_new_frame_draws_the_old_one() {
    let mut renderer = renderer();
    renderer.set_background(Ok(BackgroundVideo { is_image: true, ..video() }));
    let mut buffer = buffer();
    assert_eq!(renderer.draw(Some(&mut buffer), Duration::zero(), true, ALPHA).len(), 17);
    let mut expected = before();
    expected.push(size_info(Scaling::FullWidth));
    expected.extend(after());
    assert_eq!(renderer.draw(Some(&mut buffer), Duration::zero(), true, ALPHA), expected);
    assert_eq!(renderer.draw(None, Duration::zero(), true, ALPHA), expected);
}

#[test]
fn first_background_stays_while_it_is_drawn() {
    let mut renderer = renderer();
    let mut buffer = buffer();
    renderer.draw(None, Duration::zero(), false, ALPHA);
    renderer.set_background(Err(Error::NoVideoStream));
    renderer.set_background(Ok(video()));
    renderer.draw(Some(&mut buffer), Duration::zero(), false, ALPHA);
    renderer.set_background(Ok(BackgroundVideo { width: 1, height: 1, ..video() }));
    renderer.draw(Some(&mut buffer), Duration::zero(), false, ALPHA);
    let kept = renderer.background_video.unwrap();
    assert_eq!((kept.width, kept.height, kept.is_image), (640, 480, false));
    assert_eq!((renderer.vao, renderer.texture, renderer.program), (1, 3, 4));
}
