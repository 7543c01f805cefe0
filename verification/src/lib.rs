//! Control logic of a signed-distance-field ray marcher.
//!
//! The geometry and colour arithmetic of the renderer work on floating-point
//! numbers and live in the program around this library. What is decided on
//! integers and flags is verified here:
//!
//! * [`march`]: the step and bounce budget of a single marched ray;
//! * [`shading`]: which rays a surface hit spawns and how their colours blend;
//! * [`picture`]: how the rendered pixel columns are laid out in the saved image;
//! * [`naming`]: the file name of each rendered frame.

pub mod march;
pub mod naming;
pub mod picture;
pub mod shading;
