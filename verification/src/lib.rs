//! Launcher and companion-process supervisor for the Regia desktop shell.
//!
//! The crate decides and the event loop performs. It holds no window, starts no process
//! and reads no clock: the event loop reports what it found and what happened, and is
//! told what to do next.
//!
//! - [`capability`] names the capabilities that the host can open to the UI layer and
//!   keeps the ordered set that a shell registers.
//! - [`window`] names the main window and its title and looks the window up among the
//!   declared ones.
//! - [`launcher`] runs the startup sequence and owns the application context.
//! - [`companion`] supervises the companion process from spawn to exit.
//! - [`laws`] states what holds of the launcher and the supervisor in every state.

pub mod capability;
pub mod companion;
pub mod launcher;
pub mod laws;
pub mod window;
