//! A docking workspace layout: the panel registry, the tree of dock nodes,
//! its versioned snapshot, the startup migration policy and the debounced
//! save scheduler.

pub mod panel;
pub mod node;
pub mod state;
pub mod area;
pub mod round_trip;
pub mod prune;
pub mod scheduler;
pub mod migration;
pub mod workspace;
