//! A textured quad in a window: the quad's geometry, the texture's
//! description, and the decisions of the window loop, each with its contract.
//! The program that owns the window, the device and the files calls in here
//! for every decision and performs what comes back.

pub mod error;
pub mod event_loop;
pub mod geometry;
pub mod texture;
pub mod window;
