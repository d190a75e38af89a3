//! Core of a minimal real-time rendering front end: choosing a GPU and queue
//! family that can both render and present, and driving each window's
//! swapchain through its create / present / invalidate / recreate life cycle
//! with one frame-in-flight token per window.
//!
//! Everything here is stated and proved over plain data. The surrounding
//! application owns the window system and the GPU driver: it enumerates the
//! physical devices, performs the swapchain, acquire, submit and present
//! calls, and feeds each call's outcome back into these state machines.

pub mod engine;
pub mod error;
pub mod graphics;
pub mod pacer;
pub mod window;
