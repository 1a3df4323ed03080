//! Scheduling core for a long-running Monte Carlo simulation: plugins decide
//! when to report progress, write checkpoints, capture movie frames and stop,
//! and a manager amortizes those decisions so the per-move cost stays O(1).

pub mod action;
pub mod decimal;
pub mod duration;
pub mod manager;
pub mod movie;
pub mod plugin;
pub mod report;
pub mod save;
