# blitz

Headless page rendering behind a C ABI: HTML, markdown or a URL in, an RGBA image
or a PNG file out.

- `src/` is the library, verified with Verus. It holds everything that is decided or
  computed: option defaults, argument checks and error texts, the markdown document,
  pixel sizes, the course of a render and of each sub-resource transfer, request
  bodies, and PNG files.
- `app/` is ordinary Rust around it: pointers and the `blitz_*` symbols, the
  thread-local error channel, the tokio runtime, files, HTTP and the layout engine.
  It performs the actions that the library asks for and hands the replies back.
- `tests/` runs the library, with the crates it calls linked in.

Scale factors and content heights are 32-bit floats. The library takes them by their
bit pattern (`binary::Binary32`) and computes the pixel sizes that 64-bit float
arithmetic gives, in whole numbers; the laws about them are in `src/scaling.rs`.

A render is driven by `render::RenderMachine`, a sub-resource by `transfer::Transfer`.
Both take an event and return the next action, and neither does any I/O.
