//! Loading pipeline and per-frame draw protocol for a single static 3D
//! avatar asset rendered as an overlay layer.
//!
//! The crate turns a parsed scene document (meshes, primitives, materials,
//! embedded images) into GPU-ready vertex, index and texture data, and it
//! drives the lifecycle of the compiled scene: realize builds it once,
//! every redraw request yields a frame plan (fixed render state plus one
//! indexed draw per mesh instance, in load order), unrealize tears it down.
//! The host windowing layer owns the drawing surface and the GL context;
//! it hands this crate plain values and executes the plans it gets back.

pub mod builder;
pub mod document;
pub mod errors;
pub mod geometry;
pub mod image;
pub mod render;
pub mod scene;
