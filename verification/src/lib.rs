//! Core of a screen-capture pipeline: a pure crop/downsample/channel-reorder
//! transform, a single-slot frame store with FPS accounting, the per-tick
//! decision logic of the acquisition loop, and a query interface over a
//! shared, concurrently readable copy of the store.
pub mod capture;
pub mod shared;
pub mod store;
pub mod transform;
