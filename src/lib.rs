//! Layout and colouring of a consensus DAG for step-by-step inspection of a trace.
//!
//! `geometry` places blocks on a canvas, `index` answers what the decisions so far say
//! about a block or an edge, `layout` turns a block store and a decision history into
//! a draw-list, `navigation` moves a cursor over the steps of a trace, and `laws`
//! states the properties that hold across these functions.
pub mod geometry;
pub mod index;
pub mod laws;
pub mod layout;
pub mod model;
pub mod navigation;
pub mod store;
pub mod text;
