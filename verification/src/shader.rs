use vstd::prelude::*;
use crate::color::Rgb8;

verus! {

/// The flat color of the sphere: pure red.
pub open spec fn sphere_color() -> Rgb8 {
    Rgb8 { r: 255, g: 0, b: 0 }
}

/// Whether `color` is what shading gives: the sphere's color on a hit, and on
/// a miss a color that `sky` may return.
pub open spec fn shaded<F: FnOnce() -> Rgb8>(hit: bool, sky: F, color: Rgb8) -> bool {
    if hit {
        color == sphere_color()
    } else {
        call_ensures(sky, (), color)
    }
}

/// Picks the color of a pixel once it is known whether its ray hit the
/// sphere. A hit gives the sphere's color, and `sky` is not called. A miss
/// gives the color that `sky` returns.
pub fn shade<F: FnOnce() -> Rgb8>(hit: bool, sky: F) -> (color: Rgb8)
    requires
        !hit ==> call_requires(sky, ()),
    ensures
        shaded(hit, sky, color),
{
    if hit {
        Rgb8 { r: 255, g: 0, b: 0 }
    } else {
        sky()
    }
}

/// Shading adds no choice of its own. Where `sky` can return only one color,
/// two colors shaded from the same hit flag and the same `sky` are equal; on a
/// hit they are equal whatever `sky` is.
pub proof fn lemma_shade_repeatable<F: FnOnce() -> Rgb8>(hit: bool, sky: F, first: Rgb8, second: Rgb8)
    requires
        shaded(hit, sky, first),
        shaded(hit, sky, second),
        hit || forall|a: Rgb8, b: Rgb8|
            #[trigger] call_ensures(sky, (), a) && #[trigger] call_ensures(sky, (), b) ==> a == b,
    ensures
        first == second,
{
}

} // verus!
