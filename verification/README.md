# wry_composition

Desktop composition for a WebView2 host, verified with Verus.

The library (`src/`) holds the decisions and makes no operating-system call. An
operation that needs one describes the call, waits for the reply, and goes on with it.

- `host`, `transition`, `bounds`: presenting the visual of a WebView in a window,
  parking it again, resizing it. A move that fails halfway puts the visual back.
- `window`, `state`, `registration`: which controller a window belongs to, and which
  thread may operate on it.
- `prepare`: creating a composition controller with its DirectComposition graph.
- `controller_ptr`: controllers by raw pointer.
- `mode`: which WebViews are hosted by a composition controller.
- `uri`, `text`: the work-around for URIs of custom protocols.
- `dpi`, `platform`: resolutions, system versions.
- `error`, `step`: errors, and operations that proceed call by call.

`app/` makes the calls on Windows, and keeps what a process keeps between them.
