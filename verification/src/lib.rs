//! Backend core of a small desktop application: a greeting formatter and
//! the decision logic of the splash-screen to main-window transition.
//!
//! The window operations themselves (closing, showing, focusing) are the
//! host GUI runtime's business; this crate decides, from what the runtime
//! reports about each operation, which operation comes next and what the
//! caller is told in the end.

pub mod greeting;
pub mod transition;
