//! The key points of the curves through the control points.
use vstd::prelude::*;

verus! {

/// The keys of a Catmull-Rom curve through the points: copies of the points, with the
/// first and the last repeated at the ends so that the curve runs from the first point
/// to the last; no keys for no points.
pub fn catmull_rom_control_points<C: Clone>(control_points: &[C]) -> (res: Vec<C>)
    ensures
        control_points@.len() == 0 ==> res@.len() == 0,
        control_points@.len() > 0 ==> {
            let n = control_points@.len() as int;
            &&& res@.len() == n + 2
            &&& cloned(control_points@[0], res@[0])
            &&& cloned(control_points@[n - 1], res@[n + 1])
            &&& forall|i: int| 0 <= i < n ==> cloned(control_points@[i], #[trigger] res@[i + 1])
        },
{
    let n = control_points.len();
    let mut res: Vec<C> = Vec::new();
    if n == 0 {
        return res;
    }
    res.push(control_points[0].clone());
    let mut i: usize = 0;
    while i < n
        invariant
            n == control_points@.len(),
            n > 0,
            i <= n,
            res@.len() == i + 1,
            cloned(control_points@[0], res@[0]),
            forall|j: int| 0 <= j < i ==> cloned(control_points@[j], #[trigger] res@[j + 1]),
        decreases n - i,
    {
        res.push(control_points[i].clone());
        i = i + 1;
    }
    res.push(control_points[n - 1].clone());
    res
}

} // verus!
