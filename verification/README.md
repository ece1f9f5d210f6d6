# vision-recognizer

An MCP stdio server with two tools, `vision.recognize_image` and
`vision.analyze_video`, that send images and short-video frames to the OpenAI
Vision API (chat completions with `image_url` items carrying base64 `data:`
URLs).

## Layout

- `src/` — the verified library (Verus):
  - `client.rs` — `VisionClient` and the state machine of one API call
    (`Exchange::advance`): which files to read, the request to send, how the
    reply is judged; with the laws of the exchange.
  - `chat.rs` — request and reply models, the shape of a request, extraction
    of the reply text.
  - `media.rs` — accepted image formats and `data:` URLs (base64 via the
    `base64` crate).
  - `video.rs` — accepted containers, limits, `ffprobe`/`ffmpeg` arguments and
    messages, selection, ordering and capping of extracted frames.
  - `tools.rs` — settings, defaults and input checks of the MCP tools, and
    the state machine of a `vision.analyze_video` call (`VideoCall::advance`).
  - `error.rs`, `text.rs`, `paths.rs` — errors and their messages, text
    helpers (lowercasing, comparison, decimal rendering, sorting), file
    extensions.
- `app/` — the program: CLI, MCP server (`rmcp`), file and network I/O,
  subprocesses, and the floating-point frame-rate and duration handling.
- `tests/` — tests of the library.
