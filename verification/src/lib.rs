//! A CPU-backed video-acceleration driver core: handle tables for surfaces,
//! configs, contexts, buffers and images; per-format surface layout
//! arithmetic; a tagged buffer model for the parameter blocks a client
//! submits; and the render dispatcher that interprets a batch of submitted
//! buffers against the active context, running a pixel-format conversion or
//! driving a streaming H.264 encode session.
//!
//! Kernel-facing work (allocating sealed shared-memory regions, wrapping them
//! in dmabuf handles, mapping them) and the encoder library itself live
//! outside this crate; the driver models a backing region as owned bytes plus
//! the descriptor pair the allocator produced, and expresses encoder work as
//! explicit actions for the host loop to perform.

pub mod buffer;
pub mod convert;
pub mod driver;
pub mod format;
pub mod handle;
pub mod laws;
pub mod params;
pub mod render;
pub mod types;
pub mod status;
