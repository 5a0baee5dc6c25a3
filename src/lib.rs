//! Bookkeeping core of a compute-driven renderer: the per-frame fence and
//! slot schedule, a shader registry with an on-disk bytecode cache, a
//! deferred pipeline cache, an image store, ping-pong bind groups and the
//! render graph that orders the compute pass before display.
pub mod frame;
pub mod text;
pub mod registry;
pub mod layout;
pub mod pipeline;
pub mod image;
pub mod bind;
pub mod graph;
pub mod pass;
pub mod startup;
