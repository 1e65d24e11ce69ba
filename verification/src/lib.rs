//! The decision-making core of a hardware ray-tracing engine: backend
//! selection, the streaming session of one connected editor, and the layout
//! of everything that a scene uploads to the GPU.
//!
//! Devices, sockets and floating-point arithmetic stay outside. A float is
//! carried here as its bit pattern ([`scalar::Scalar`]).
pub mod backend;
pub mod capability;
pub mod ipc;
pub mod render;
pub mod scalar;
pub mod scene;
pub mod text;
