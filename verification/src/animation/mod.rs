//! Keyframe timelines: their data, the search for the active keyframe, and the
//! playback state machine.
pub mod easing;
pub mod frame;
pub mod laws;
pub mod model;
pub mod search;
pub mod timeline;

pub use easing::{Bezier, BezierEnum};
pub use easing::{DEFAULT, EASE, EASE_CUSTOM, EASE_IN, EASE_IN_OUT, EASE_OUT, LINEAR};
pub use model::{ALTERNATE, ALTERNATE_REVERSE, NORMAL, REVERSE};
pub use model::{BACKWARDS, BOTH, FORWARDS, NONE};
pub use model::{FINISH, IDLE, PAUSED, RUNNING};
pub use timeline::Animation;
