//! A thin, strongly-typed resource-factory layer for a graphics device
//! backend: shader-source selection by shading model, vertex/pixel program
//! linking, validated pipeline-state construction, and shortcut constructors
//! for common buffers, textures and samplers.
//!
//! The device backend and the windowing layer are abstract collaborators,
//! reached through the [`factory::Factory`], [`context::Context`] and
//! [`context::GlProvider`] traits; [`dummy`] provides in-crate
//! implementations that record every backend call.

pub mod context;
pub mod dummy;
pub mod factory;
pub mod mesh;
pub mod pso;
pub mod shade;
pub mod tex;
