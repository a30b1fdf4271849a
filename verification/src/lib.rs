//! Native shell of a desktop application: it launches a separate backend
//! executable as a child process at startup, keeps a handle to it behind a
//! lock for the lifetime of the window, and terminates it when the window
//! closes. The lifecycle of that handle — present after a successful spawn,
//! taken and killed exactly once on close — is what this crate states and
//! proves; the host UI framework and the operating-system calls live outside
//! it.

pub mod lifecycle;
pub mod setup;
pub mod shared;
