//! A lattice Boltzmann wind tunnel: the integer state, rules and plans that drive
//! the GPU solver and its views.
pub mod grid;
pub mod render_mode;
pub mod mask;
pub mod bytes;
pub mod state;
pub mod schedule;
pub mod buffers;
