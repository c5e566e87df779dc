# physarum

A slime-mould simulation on the GPU: a million agents move by a compute
kernel, leave a trail on a substrate texture that a second kernel blurs,
and are drawn as small triangles over the substrate.

- `src/` is the verified library (Verus):
  - `sizing.rs`: buffer sizes (with staging rows padded to the copy alignment) and work
    group counts, with ceiling division;
  - `bindings.rs`: bind group layouts, the two compute bind groups that swap
    the particle buffers, and the vertex buffer layouts;
  - `frame.rs`: the per-frame state and the commands of each frame.
- `app/` is the program: it opens the window, creates the GPU resources from
  what the library describes, fills the particle buffers with random
  floating-point values, and records each frame's commands. It reads its WGSL
  shaders (`compute.wgsl`, `draw.wgsl`, `substrate.wgsl`) from a `shaders`
  directory in the working directory.
- `tests/` runs the library on concrete values.
