//! Host-side core of a clustered light culling renderer.
//!
//! Per frame, a view-dependent 3-D cluster grid is fitted over one or two
//! posed cameras, GPU buffer capacities are kept in step with the grid
//! configuration, and a fixed five-stage compute pipeline (compact, upload,
//! count, offset, assign) turns per-cluster fragment activity into a flat,
//! indexable light list. This crate holds the verified bookkeeping and
//! integer logic: frame-scoped pooling, buffer capacity policies, grid
//! dimension computation and clamping, stage ordering, command encodings,
//! and the reference semantics of the compaction and prefix-sum stages.

pub mod buffer;
pub mod cluster;
pub mod cluster_renderer;
pub mod codec;
pub mod commands;
pub mod count_lights;
pub mod pipeline;
pub mod pool;
pub mod program;
pub mod raw;
pub mod render_state;
pub mod resources;
pub mod stage;
pub mod texture;
