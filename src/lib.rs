//! Startup supervision for a desktop shell around a bundled server: which
//! files the resource directory must hold, how the server is launched, when
//! the splash and main windows open and close, and how the child process
//! handle is released at exit.
pub mod child_slot;
pub mod launch;
pub mod readiness;
