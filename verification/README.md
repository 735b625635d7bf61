# WidgetKit

A library for desktop widgets: a `Canvas` that records drawing commands, a software
rasterizer that turns them into pixels, text layout on an 8x8 bitmap font, window
configuration and placement, and the runtime's decision logic (widget lifecycle, demand-driven
redraw, timer scheduling), each stated with a contract and proved.

- `src/` — the library, with its contracts and proofs.
- `tests/` — tests of the library on concrete values.
- `app/` — the runtime around it: the widget trait and its contexts, the timer thread,
  background tasks, and the desktop host on `winit` and `softbuffer`.

Geometry is in whole logical pixels (`i32`), with edges computed wide and results saturated.
