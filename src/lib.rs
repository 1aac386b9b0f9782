//! Swapchain lifecycle and per-frame submission logic for a small real-time renderer.
//!
//! Every decision the renderer makes (device and queue-family selection, surface
//! configuration, swapchain state, the frame protocol and its recovery policy) is a
//! verified function over plain values. The graphics backend itself is driven by the
//! application, which reports what the backend returned and performs what the library
//! decides.
pub mod adapter;
pub mod instance;
pub mod renderer;
pub mod surface;
pub mod swapchain;
