# Pet Blackhole

A desktop pet that looks like a faint LCD pressure mark: a translucent,
slightly uneven brown smudge that you can drag around, that squashes against
the screen edges, and that wanders off on its own after a while.

## Layout

- `src/` is the verified library (Verus):
  - `pet.rs`: the pet's modes (idle, dragging, wandering, sleeping), how user
    activity and idle time move it between them, and its redraw rate;
  - `control.rs`: what pointer events do to the pet and to the window;
  - `clock.rs`: the monotonic clock and durations it is timed by;
  - `activity.rs`: the system idle time;
  - `outline.rs`: the ring of nodes that makes up the pet's outline;
  - `swapchain.rs`: the choice of device, queue family, memory type and
    swapchain settings for drawing;
  - `frame.rs`: the render loop's frames in flight and resize bookkeeping.
- `app/` is the program around it: the window (winit), the soft-body
  simulation in floating point, and the Vulkan renderer (ash).
- `tests/` runs the library on concrete values.

The renderer reads its compiled shaders from `target/slime.vert.spv` and
`target/slime.frag.spv`; compile them with `glslc` first. Right-click the pet
to quit.
