//! Viewport and windowed-fetch control for a scrollable grid over a large table.

pub mod batch;
pub mod camera;
pub mod channel;
pub mod composer;
pub mod fetch;
pub mod grid;
pub mod layout;
pub mod line;
pub mod metrics;
pub mod pixel;
pub mod projector;
pub mod scheduler;
pub mod viewport;
pub mod worker;
