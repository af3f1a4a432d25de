# alacritty_background

The animated background of a terminal window: a video, or a still image, drawn
behind the cells.

A thread decodes frames ahead of time into a bounded buffer. Each time the window
is drawn, the renderer takes the frame whose time has come out of the buffer,
uploads it to a texture and draws the texture over the whole window.

`src/` is a Verus library. It holds the rules, with their contracts and proofs:

- `frame`: the frame buffer. Which frames it takes, and which one it hands out
  at a given time.
- `decoder`: which call into the decoding library comes next while a file is
  opened or a frame is read, given what the last call returned.
- `video`: the playback clock, and what the decoding thread does next.
- `gl`, `renderer`: the graphics commands that set up, upload and draw, as data.
- `duration`, `error`: spans of time, and what can go wrong.
- `frame_laws`, `decoder_laws`, `video_laws`, `renderer_laws`: what holds over
  any number of calls.

`app/` is ordinary Rust around it: the calls into FFmpeg and OpenGL, the decoding
thread with its lock, and the arithmetic on floating point numbers. OpenGL is
called through the bindings of the `gl` crate. The terminal compiles the shaders
of the background and hands over the program.
