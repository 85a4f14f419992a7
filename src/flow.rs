pub mod builder;
pub mod grid;
pub mod laws;
pub mod render_task;
pub mod schedule;
