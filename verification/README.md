# rust_fluid

A lattice Boltzmann wind tunnel that runs on the GPU (wgpu) with an egui control
panel. The library in `src/` holds, with Verus contracts and proofs, the parts of
the program that decide and compute on integers:

- `state.rs`: the application state (grid, window, obstacle box, view toggles),
  its invariant and every operation on it;
- `mask.rs`: the obstacle mask, a disc inscribed in the obstacle's box, and its
  byte image for upload;
- `buffers.rs`: the sizes of the solver's GPU buffers and which buffers each
  compute and render stage binds;
- `schedule.rs`: how many steps a frame runs and the commands that run them;
- `grid.rs`: rounding-up division for workgroup counts;
- `render_mode.rs`: the displayed field and its captions;
- `bytes.rs`: byte images of words.

`app/` is the program: window and event loop (winit), GPU device, pipelines and
buffers (wgpu), control panel (egui), and the floating-point physics parameters.
It reads the WGSL shaders from a `shaders/` directory at run time.
