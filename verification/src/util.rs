//! The monitor locator: which of the attached displays a request means.

use vstd::prelude::*;
use crate::model::Monitor;

verus! {

/// `found` is the answer of the locator for the origin `(x, y)`: the index
/// of the first display in `monitors` that reports exactly this origin, or
/// `None` when no display does.
pub open spec fn is_first_at(monitors: Seq<Monitor>, x: int, y: int, found: Option<int>) -> bool {
    match found {
        Some(i) => {
            &&& 0 <= i < monitors.len()
            &&& monitors[i]@.at_origin(x, y)
            &&& forall|j: int| 0 <= j < i ==> !(#[trigger] monitors[j])@.at_origin(x, y)
        },
        None => forall|j: int| 0 <= j < monitors.len() ==> !(#[trigger] monitors[j])@.at_origin(x, y),
    }
}

/// Finds the display whose logical origin is exactly `(screen_x, screen_y)`
/// among the displays that were enumerated for this request, and returns its
/// index. Of several such displays the first is taken; a display that
/// reports no origin is never taken.
pub fn find_monitor(monitors: &Vec<Monitor>, screen_x: i32, screen_y: i32) -> (r: Option<usize>)
    ensures
        is_first_at(
            monitors@,
            screen_x as int,
            screen_y as int,
            match r {
                Some(i) => Some(i as int),
                None => None,
            },
        ),
{
    let mut i: usize = 0;
    while i < monitors.len()
        invariant
            i <= monitors.len(),
            forall|j: int| 0 <= j < i ==> !(#[trigger] monitors@[j])@.at_origin(screen_x as int, screen_y as int),
        decreases monitors.len() - i,
    {
        if monitors[i].is_at(screen_x, screen_y) {
            return Some(i);
        }
        i += 1;
    }
    None
}

/// The locator has one answer only.
pub proof fn lemma_first_at_is_unique(
    monitors: Seq<Monitor>,
    x: int,
    y: int,
    a: Option<int>,
    b: Option<int>,
)
    requires
        is_first_at(monitors, x, y, a),
        is_first_at(monitors, x, y, b),
    ensures
        a == b,
{
    match (a, b) {
        (Some(i), Some(j)) => {
            if i < j {
                assert(!monitors[i]@.at_origin(x, y));
            } else if j < i {
                assert(!monitors[j]@.at_origin(x, y));
            }
        },
        (Some(i), None) => {
            assert(!monitors[i]@.at_origin(x, y));
        },
        (None, Some(j)) => {
            assert(!monitors[j]@.at_origin(x, y));
        },
        (None, None) => {},
    }
}

} // verus!
