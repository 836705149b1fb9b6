//! Frame-pacing logic for an egui panel rendered on a Wayland layer-shell
//! surface.
//!
//! The heart of the crate is the [`scheduler::RedrawScheduler`], which decides,
//! each time the host event loop wakes up, whether a new frame must be
//! produced and how long the loop may block until the next mandatory wakeup.
//! The [`input`] and [`keymap`] modules translate raw windowing-system events
//! (pointer button codes, X keysyms, modifier state) into the events the UI
//! runtime consumes.
//!
//! The Wayland connection, the GPU surface and the UI runtime themselves stay
//! outside this crate; they hand the scheduler plain values (event payloads,
//! timestamps, sizes) and take plain values back.

pub mod input;
pub mod keymap;
pub mod scheduler;

pub use scheduler::RedrawScheduler;
