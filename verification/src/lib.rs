//! Bridge between a running traffic simulation and an interactive 2D viewer.
//!
//! At any simulation instant the library produces a consistent, de-duplicated
//! set of drawable agent descriptors, culls them (together with static map
//! geometry) to the visible viewport, and resolves which single entity sits
//! under the cursor, preferring dynamic agents over static map features.

pub mod canvas;
pub mod geometry;
pub mod holders;
pub mod ids;
pub mod map_model;
pub mod objects;
pub mod render;
pub mod sim;
pub mod ui;
