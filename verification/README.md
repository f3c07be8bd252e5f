# raytracer

A GPU ray tracer built on wgpu, winit and egui. The library (`src/`) holds the
parts of the program that decide something, each proved with Verus:

- `bits` — `F32Bits` / `Vec3Bits`: scene values carried as their IEEE-754 bit
  patterns. The scene logic only moves these values into GPU buffers, so the
  bit patterns stand for them exactly.
- `cube`, `sphere` — scene objects, their materials and the uniforms the shader
  reads; the cube mesh (vertices and triangle indices) with the proof that every
  triangle is wound counter-clockwise seen from outside.
- `camera` — which movement keys move the camera, and the restart of sample
  accumulation when it moves.
- `raytracing` — compute dispatch sizes and the per-frame index handed to the
  shader.
- `renderer`, `event_loop` — what a frame does with the surface status, and the
  actions of the application for each window event.

`app/` is the program itself: window, GPU device, pipelines, the overlay UI and
the floating-point camera math. It converts between the library's values and
the `repr(C)`/`Pod` copies that are uploaded to the GPU. The WGSL shaders are
read at start-up from `src/shader.wgsl` and `src/raytracing.wgsl`.
