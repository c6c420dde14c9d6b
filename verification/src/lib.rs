//! Route planning over procedurally generated terrain.
//!
//! The library models an infinite terrain surface as a seeded noise height
//! field, expands travel states under a bounded per-step turning window,
//! weighs each step by its absolute slope, and runs a best-first search,
//! guided by accumulated slope cost plus a remaining-distance estimate, to
//! find a route whose final state crosses the canvas's right edge. The
//! estimate may overestimate the cheapest remaining cost, so the route is
//! not promised to be globally minimal. Rendering the terrain and the route is left to the
//! surrounding program; the library exposes the height field and the route
//! as plain values.

pub mod config;
pub mod node;
pub mod search;
pub mod step;
pub mod terrain;
