//! Body picking: given the bodies' positions and a picked point projected
//! onto the ground plane, select the body nearest to that point, reset every
//! body to the unselected color, and mark only the selected one.

use crate::geom::Vec3;
use crate::geom::dist_sq;
use crate::geom::dist_sq_exec;
use crate::geom::in_bounds;
use crate::geom::project_to_ground;
use vstd::prelude::*;

verus! {

/// A cursor position on the screen, in integer screen units.
#[derive(Clone, Copy, PartialEq, Eq, Structural, Debug)]
pub struct CursorPos {
    pub x: i64,
    pub y: i64,
}

/// The pick-ray source attached to the camera: it remembers the cursor
/// position the next pick ray will be cast through, once any cursor event
/// has arrived.
pub struct PickRaySource {
    pub cursor: Option<CursorPos>,
}

/// Feeds one frame's cursor events to the pick-ray source: the source takes
/// the latest event's position, and keeps its previous state when the frame
/// brought no event.
pub fn update_cursor(src: &mut PickRaySource, events: &Vec<CursorPos>)
    ensures
        events@.len() == 0 ==> final(src).cursor == old(src).cursor,
        events@.len() > 0 ==> final(src).cursor == Some(events@[events@.len() - 1]),
{
    if events.len() > 0 {
        src.cursor = Some(events[events.len() - 1]);
    }
}

/// The color a body's material shows: green until picked, white once picked.
#[derive(Clone, Copy, PartialEq, Eq, Structural, Debug)]
pub enum BodyColor {
    Unselected,
    Selected,
}

/// `i` indexes the body of `positions` nearest to `target`, with ties broken
/// toward the lowest index: nothing is strictly nearer, and everything
/// earlier is strictly farther.
pub open spec fn is_nearest(positions: Seq<Vec3>, target: Vec3, i: int) -> bool {
    &&& 0 <= i < positions.len()
    &&& forall|j: int|
        0 <= j < positions.len() ==> dist_sq(positions[i], target) <= dist_sq(positions[j], target)
    &&& forall|j: int| 0 <= j < i ==> dist_sq(positions[j], target) > dist_sq(positions[i], target)
}

/// Finds the body nearest to `target`: the index minimizing squared
/// Euclidean distance, the lowest such index on ties. Returns `None` exactly
/// when there is no body.
pub fn nearest_body(positions: &Vec<Vec3>, target: Vec3) -> (r: Option<usize>)
    requires
        in_bounds(target),
        forall|i: int| 0 <= i < positions@.len() ==> in_bounds(positions@[i]),
    ensures
        (r is None) <==> positions@.len() == 0,
        r matches Some(i) ==> is_nearest(positions@, target, i as int),
{
    if positions.len() == 0 {
        return None;
    }
    let mut best: usize = 0;
    let mut best_d: u128 = dist_sq_exec(positions[0], target);
    let mut idx: usize = 1;
    while idx < positions.len()
        invariant
            1 <= idx <= positions@.len(),
            in_bounds(target),
            forall|i: int| 0 <= i < positions@.len() ==> in_bounds(positions@[i]),
            best < idx,
            best_d == dist_sq(positions@[best as int], target),
            forall|j: int| 0 <= j < idx ==> best_d <= dist_sq(positions@[j], target),
            forall|j: int| 0 <= j < best ==> dist_sq(positions@[j], target) > best_d,
        decreases positions@.len() - idx,
    {
        let d = dist_sq_exec(positions[idx], target);
        if d < best_d {
            best = idx;
            best_d = d;
        }
        idx = idx + 1;
    }
    Some(best)
}

/// Builds the color of every body after a pick: each of the `count` bodies is
/// reset to the unselected color, and the selected one alone, if any, is
/// marked selected.
pub fn recolor(count: usize, selected: Option<usize>) -> (colors: Vec<BodyColor>)
    ensures
        colors@.len() == count,
        forall|i: int|
            0 <= i < count ==> colors@[i] == (if selected == Some(i as usize) {
                BodyColor::Selected
            } else {
                BodyColor::Unselected
            }),
{
    let mut colors: Vec<BodyColor> = Vec::new();
    let mut i: usize = 0;
    while i < count
        invariant
            i <= count,
            colors@.len() == i,
            forall|j: int|
                0 <= j < i ==> colors@[j] == (if selected == Some(j as usize) {
                    BodyColor::Selected
                } else {
                    BodyColor::Unselected
                }),
        decreases count - i,
    {
        let c = match selected {
            Some(s) if s == i => BodyColor::Selected,
            _ => BodyColor::Unselected,
        };
        colors.push(c);
        i = i + 1;
    }
    colors
}

/// Handles one pick: projects the ray hit onto the ground plane, selects the
/// body nearest to the projected point, and returns the selection together
/// with the resulting color of every body — all reset, the nearest marked.
pub fn run_picker(positions: &Vec<Vec3>, hit: Vec3) -> (r: (Option<usize>, Vec<BodyColor>))
    requires
        in_bounds(hit),
        forall|i: int| 0 <= i < positions@.len() ==> in_bounds(positions@[i]),
    ensures
        (r.0 is None) <==> positions@.len() == 0,
        r.0 matches Some(i) ==> is_nearest(
            positions@,
            Vec3 { x: hit.x, y: 0, z: hit.z },
            i as int,
        ),
        r.1@.len() == positions@.len(),
        forall|i: int|
            0 <= i < positions@.len() ==> (r.1@[i] == BodyColor::Selected <==> r.0 == Some(
                i as usize,
            )),
{
    let target = project_to_ground(hit);
    let picked = nearest_body(positions, target);
    let colors = recolor(positions.len(), picked);
    (picked, colors)
}

} // verus!
