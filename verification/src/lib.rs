//! Render-to-texture compositing core.
//!
//! A set of independent scene "dimensions" is rendered to offscreen colour
//! targets, and a full-screen post-processing pass composites a selectable,
//! cyclically rotated subset of those targets into the visible frame.
//! This crate holds the verified heart of that pipeline:
//!
//! * [`target`] — the arena that owns every offscreen render target and its
//!   resize lifecycle (handles stay stable, degenerate sizes are ignored);
//! * [`registry`] — the ordered per-camera list of dimension entries and the
//!   cyclic "selected" rotation;
//! * [`schedule`] — the once-declared frame ordering: every scene pass
//!   writes exactly one target, strictly before the composite pass;
//! * [`composite`] — the per-frame composite node: it resolves a bounded,
//!   cyclically filled set of texture bindings, acquires the ping-pong
//!   source/destination pair, and either draws one full-screen triangle or
//!   skips the frame without error.
//!
//! The GPU itself, the windowing loop and the scene content are outside
//! collaborators; they hand this crate plain values and take plain values
//! back.

pub mod composite;
pub mod registry;
pub mod schedule;
pub mod target;
