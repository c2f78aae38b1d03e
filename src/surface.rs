use vstd::prelude::*;

use crate::bound::{Bound, RectangleBound};

verus! {

/// Whether a point that the surface's plane test has classified as
/// `on_plane` lies within `bounds`.
///
/// An unbounded surface (`None`) holds every point of its plane. For a
/// rectangle the answer is what `in_rectangle` says of it; that test is run
/// only when the bound is a rectangle. `Bound::Other` has no membership test,
/// so it is not admitted here.
pub fn is_in_bounds<S, F>(bounds: &Option<Bound<S>>, in_rectangle: F) -> (r: bool)
    where
        F: Fn(&RectangleBound<S>) -> bool,
    requires
        *bounds != Some(Bound::<S>::Other),
        forall|rect: &RectangleBound<S>| in_rectangle.requires((rect,)),
    ensures
        bounds.is_none() ==> r,
        forall|rect: RectangleBound<S>|
            *bounds == Some(Bound::Rectangle(rect)) ==> in_rectangle.ensures((&rect,), r),
{
    match bounds {
        None => true,
        Some(Bound::Rectangle(rect)) => in_rectangle(rect),
        Some(Bound::Other) => false,
    }
}

/// Whether a point belongs to a bounded plane surface: it must lie on the
/// plane (`on_plane`, the surface's plane test) and within `bounds`.
///
/// The bounds are consulted only for a point on the plane, so
/// `in_rectangle` runs only then, and `Bound::Other` is excluded only then.
pub fn is_on_surface<S, F>(on_plane: bool, bounds: &Option<Bound<S>>, in_rectangle: F) -> (r: bool)
    where
        F: Fn(&RectangleBound<S>) -> bool,
    requires
        on_plane ==> *bounds != Some(Bound::<S>::Other),
        forall|rect: &RectangleBound<S>| in_rectangle.requires((rect,)),
    ensures
        !on_plane ==> !r,
        on_plane && bounds.is_none() ==> r,
        forall|rect: RectangleBound<S>|
            on_plane && *bounds == Some(Bound::Rectangle(rect)) ==> in_rectangle.ensures(
                (&rect,),
                r,
            ),
{
    on_plane && is_in_bounds(bounds, in_rectangle)
}

} // verus!
