//! A display-list flattening engine.
//!
//! The library walks an immutable, serialized description of a document's
//! visual content (a display list, organized as a tree of pipelines linked by
//! iframe references) and produces a geometrically resolved, clip/scroll
//! annotated primitive stream for a downstream compositing stage. Along the
//! way it builds a spatial hierarchy of clip, scroll, reference-frame and
//! sticky nodes, remaps fixed-position content onto the nearest enclosing
//! reference frame, and decomposes internally tiled images into an exact grid
//! of per-tile primitives.

pub mod api;
pub mod builder;
pub mod clip;
pub mod decompose;
pub mod frame;
pub mod geom;
pub mod resource;
pub mod scene;
pub mod spatial;
