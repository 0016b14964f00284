//! Where a pointer event is delivered while a button is held.

use vstd::prelude::*;

verus! {

/// A point on the desktop, in whole units of any one length. Locations that have
/// fractions are given in a unit small enough to hold them.
#[derive(Clone, Copy, Debug, PartialEq, Eq, Structural)]
pub struct Point {
    pub x: i64,
    pub y: i64,
}

/// Where an event at `source` is put on one axis, so that the surface that was
/// grabbed at `grab_origin` and is now at `current_origin` gets it in its own
/// coordinates.
pub open spec fn rebased(grab_origin: i64, source: i64, current_origin: i64) -> int {
    grab_origin + source - current_origin
}

/// Whether a coordinate can be represented.
pub open spec fn fits(n: int) -> bool {
    i64::MIN <= n <= i64::MAX
}

fn rebase(grab_origin: i64, source: i64, current_origin: i64) -> (res: i64)
    requires
        fits(rebased(grab_origin, source, current_origin)),
    ensures
        res == rebased(grab_origin, source, current_origin),
{
    let sum: i128 = grab_origin as i128 + source as i128 - current_origin as i128;
    sum as i64
}

/// The location of an event at `source` for the owner of a click grab.
///
/// The grab keeps delivering relative to the origin its surface had when the
/// button was pressed, so the event is moved by as much as the surface has moved
/// since. The owner gets it in its own coordinates, even outside its bounds.
pub fn click_grab_location(grab_origin: Point, source: Point, current_origin: Point) -> (res: Point)
    requires
        fits(rebased(grab_origin.x, source.x, current_origin.x)),
        fits(rebased(grab_origin.y, source.y, current_origin.y)),
    ensures
        res.x == rebased(grab_origin.x, source.x, current_origin.x),
        res.y == rebased(grab_origin.y, source.y, current_origin.y),
{
    Point {
        x: rebase(grab_origin.x, source.x, current_origin.x),
        y: rebase(grab_origin.y, source.y, current_origin.y),
    }
}

/// Relative to where the surface was grabbed, the event is where the pointer is
/// relative to the surface now.
pub proof fn grabs_keep_surface_coordinates(grab_origin: i64, source: i64, current_origin: i64)
    ensures
        rebased(grab_origin, source, current_origin) - grab_origin == source - current_origin,
{
}

/// A surface that has not moved gets events where they happen.
pub proof fn unmoved_surfaces_keep_locations(origin: i64, source: i64)
    ensures
        rebased(origin, source, origin) == source,
{
}

} // verus!
