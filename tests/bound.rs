use plane_surface::bound::{Bound, RectangleBound};

#[test]
fn rectangle_new_tags_the_variant() {
    match RectangleBound::new(5.0, 10.0) {
        Bound::Rectangle(r) => {
            assert_eq!(r.x_half_bound, 5.0);
            assert_eq!(r.y_half_bound, 10.0);
        }
        Bound::Other => panic!("expected a rectangle"),
    }
}

#[test]
fn rectangle_new_keeps_negative_half_bounds() {
    match RectangleBound::new(-1.0, 3.0) {
        Bound::Rectangle(r) => {
            assert_eq!(r.x_half_bound, -1.0);
            assert_eq!(r.y_half_bound, 3.0);
        }
        Bound::Other => panic!("expected a rectangle"),
    }
}
