//! Deterministic simulation core of a two-paddle ball game in fixed-point
//! arithmetic: paddle control, motion, collision response, scoring and the
//! serve lockout, advanced one fixed tick at a time.

pub mod ai;
pub mod arena;
pub mod ball;
pub mod bounce;
pub mod collision;
pub mod geometry;
pub mod input;
pub mod paddle;
pub mod pursuit;
pub mod scoreboard;
pub mod serve;
pub mod tick;
pub mod units;
pub mod world;
