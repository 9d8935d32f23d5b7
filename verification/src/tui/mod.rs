//! The full-screen view of all sessions.
pub mod app;
pub mod badge;
pub mod laws;
pub mod palette;
pub mod pty;
pub mod view;
