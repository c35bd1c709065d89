# tauri_femtovg

A Tauri application that paints a femtovg canvas beneath its web view, with
the decisions of its event handling and render loops verified by Verus.

- `src/` is the verified library:
  - `greeting`: the `greet` command.
  - `render_msg`: the messages to the render loop.
  - `run_events`: which messages each application event sends.
  - `gtk_loop`: what the GTK render task does with a message.
  - `render_loop`: the state machine of the GPU render thread.
  - `alpha_mode`: the choice of the surface's alpha mode.
  - `surface_wait`: the bounded wait for the mobile surface.
  - `plugin`: the plugin's `ping` command.
- `app/` holds the Tauri, GTK, wgpu and JNI plumbing that performs what the
  library decides, and the drawing itself.
- `tests/` runs the library on concrete values.
