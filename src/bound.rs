use vstd::prelude::*;

verus! {

/// Half-widths of a rectangle along the surface's local `u` and `v` axes,
/// measured from the surface's center. `S` is the scalar type of the
/// coordinates.
#[derive(Debug, Clone, Copy)]
pub struct RectangleBound<S> {
    pub x_half_bound: S,
    pub y_half_bound: S,
}

/// The extent of a plane surface.
#[derive(Debug, Clone, Copy)]
pub enum Bound<S> {
    Rectangle(RectangleBound<S>),
    /// A shape with no membership test yet.
    Other,
}

impl<S> RectangleBound<S> {
    /// A rectangular bound, already tagged as `Bound::Rectangle`.
    pub fn new(x_half_bound: S, y_half_bound: S) -> (r: Bound<S>)
        ensures
            r == Bound::Rectangle(RectangleBound { x_half_bound, y_half_bound }),
    {
        Bound::Rectangle(RectangleBound { x_half_bound, y_half_bound })
    }
}

} // verus!
