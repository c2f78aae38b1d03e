//! Plane surfaces in space: the shapes that bound them, the choice of the
//! reference axis that their local frame is built from (with the frame's
//! algebra stated over exact integers), and the membership decision.
//! The coordinates themselves are of any scalar type `S`.
use vstd::prelude::*;

pub mod bound;
pub mod frame;
pub mod surface;
