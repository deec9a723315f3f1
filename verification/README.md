# skia_wgpu_surface

The surface of a window into which a UI is drawn with Skia, through wgpu. A
surface either draws the UI straight into the swapchain, or is inverted: the UI
goes into a persistent overlay, and a compose hook draws the window's content
with the overlay on top.

`src/` holds what the surface remembers and decides, verified with Verus:

- `backend`: which backend of wgpu Skia can share, and which to avoid
- `config`: the swapchain's format, size and present mode
- `error`: the errors and their messages
- `overlay`: the overlay texture, and a dump of it for debugging
- `perf`: counters on how the UI is drawn
- `render`: the course of a frame and of a change of size, step by step
- `surface`: the surface itself
- `laws`: what holds of whole frames and from one call to the next

`app/` does on a wgpu device what the library decides. The UI toolkit and Skia
are reached there through two traits.
