//! Decision logic of a desktop/mobile shell that paints a vector canvas
//! underneath a web view: the greeting command, the translation of window
//! events into render messages, the render loops that react to those
//! messages, the choice of the surface's alpha mode, the wait for a mobile
//! surface, and the plugin's ping command.

pub mod greeting;
pub mod render_msg;
pub mod run_events;
pub mod gtk_loop;
pub mod render_loop;
pub mod alpha_mode;
pub mod surface_wait;
pub mod plugin;
