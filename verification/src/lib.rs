//! The verified core of a lidar scanning game: the capacity-bounded cloud of
//! scanned points, and the small state machines that decide when the emitter
//! fires and which screen the game is on.

pub mod gamestate;
pub mod input;
pub mod space;
pub mod texture;
