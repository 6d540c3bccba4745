//! Causal-consistency tracking for a sharded streaming dataflow: per-path
//! logical time, its remapping across nodes, and detection of torn state.
pub mod time;
pub mod path_map;
pub mod vector_time;
pub mod node_state;
pub mod assignments;
pub mod placement;
pub mod laws;
