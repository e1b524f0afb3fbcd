//! Exact collision geometry for a small 2D arcade game.
//!
//! The heart of the crate is a collision-detection core: point-in-shape and
//! shape-in-shape predicates for circles, line segments, convex polygons and
//! annular arcs, together with the radius-only collision capability that the
//! gameplay entities (player, enemies, bullets, waves) use. All coordinates
//! live on an integer grid, so every predicate is an exact sign or comparison
//! test: there is no rounding and no undefined division. Windowing, input and
//! rendering are deliberately outside this crate; a thin front end converts
//! its own floating-point world into grid coordinates before asking the
//! predicates anything.

pub mod collision;
pub mod game;
pub mod levels;
pub mod maths;
pub mod models;
