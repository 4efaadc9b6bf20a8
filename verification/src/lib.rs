//! Keeps background child processes from flashing a console window.
//!
//! A command builder records how a child process is to be spawned. On Windows
//! the spawn primitive takes a creation-flags mask, and a child spawned without
//! `CREATE_NO_WINDOW` in that mask is given a visible console. The builders of
//! this crate carry the mask together with the platform they are built for,
//! and `hide_console_window` puts the flag into the mask on Windows and leaves
//! the builder alone everywhere else.
//!
//! There are two builders, one for each way of waiting for the child:
//! [`StdCommand`] for a blocking wait and [`TokioCommand`] for a non-blocking
//! one. Hiding the console window means the same for both.

pub mod creation_flags;
pub mod platform;
pub mod std_command;
pub mod tokio_command;

pub use creation_flags::{hide_in_mask, CREATE_NO_WINDOW};
pub use platform::Platform;
pub use std_command::{StdCommand, StdCommandExt};
pub use tokio_command::{TokioCommand, TokioCommandExt};
