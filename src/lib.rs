//! Resolves a ready-to-use Direct3D 9 device for the calling process by
//! attaching to a window that the process already owns.
//!
//! The operating-system and driver calls are made by the caller; this crate
//! holds the decisions: which window is taken, what is asked of the driver,
//! when the single windowed/fullscreen fallback is tried, and which result or
//! error comes out.
pub mod error;
pub mod window;
pub mod device;
pub mod acquire;
