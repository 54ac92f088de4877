//! The previewer's state: the points it shows, the width each is shown at, and how
//! many colours the curve is sampled into. Widths are of the caller's number type.
use vstd::prelude::*;
use crate::common::SplineMode;

verus! {

/// What the previewer shows and how.
#[derive(Debug)]
pub struct PreviewerData<C, S> {
    pub control_points: Vec<C>,
    pub spline_mode: SplineMode,
    pub points_preview_sizes: Vec<S>,
    pub quantize_num_levels: usize,
}

/// `n` copies of `x`.
fn repeat<S: Copy>(x: S, n: usize) -> (res: Vec<S>)
    ensures
        res@ == Seq::new(n as nat, |i: int| x),
{
    let mut v: Vec<S> = Vec::new();
    let mut i: usize = 0;
    while i < n
        invariant
            i <= n,
            v@ == Seq::new(i as nat, |j: int| x),
        decreases n - i,
    {
        v.push(x);
        i = i + 1;
        assert(v@ =~= Seq::new(i as nat, |j: int| x));
    }
    v
}

impl<C: Clone, S: Copy> PreviewerData<C, S> {
    /// `num` copies of `default_point`, each shown at `default_size`, in Hermite mode,
    /// sampled into 4 colours.
    pub fn new(num: usize, default_point: &C, default_size: S) -> (res: Self)
        ensures
            res.control_points@.len() == num,
            forall|i: int| 0 <= i < num ==> cloned(*default_point, #[trigger] res.control_points@[i]),
            res.points_preview_sizes@ == Seq::new(num as nat, |i: int| default_size),
            res.spline_mode == SplineMode::HermiteBezier,
            res.quantize_num_levels == 4,
    {
        let mut control_points: Vec<C> = Vec::new();
        let mut i: usize = 0;
        while i < num
            invariant
                i <= num,
                control_points@.len() == i,
                forall|j: int| 0 <= j < i ==> cloned(*default_point, #[trigger] control_points@[j]),
            decreases num - i,
        {
            control_points.push(default_point.clone());
            i = i + 1;
        }
        PreviewerData {
            points_preview_sizes: repeat(default_size, num),
            control_points,
            spline_mode: SplineMode::HermiteBezier,
            quantize_num_levels: 4,
        }
    }

    /// Shows every point at `default_size` again.
    pub fn reset_preview_sizes(&mut self, default_size: S)
        ensures
            final(self).points_preview_sizes@ == Seq::new(
                old(self).points_preview_sizes@.len(),
                |i: int| default_size,
            ),
            final(self).control_points == old(self).control_points,
            final(self).spline_mode == old(self).spline_mode,
            final(self).quantize_num_levels == old(self).quantize_num_levels,
    {
        let n = self.points_preview_sizes.len();
        self.points_preview_sizes = repeat(default_size, n);
    }
}

/// The previewer.
#[derive(Debug)]
pub struct ZPreviewer<C, S> {
    pub data: PreviewerData<C, S>,
}

impl<C: Clone, S: Copy> ZPreviewer<C, S> {
    /// A previewer of no points.
    pub fn new() -> (res: Self)
        ensures
            res.data.control_points@.len() == 0,
            res.data.points_preview_sizes@.len() == 0,
            res.data.spline_mode == SplineMode::HermiteBezier,
            res.data.quantize_num_levels == 4,
    {
        ZPreviewer {
            data: PreviewerData {
                control_points: Vec::new(),
                spline_mode: SplineMode::HermiteBezier,
                points_preview_sizes: Vec::new(),
                quantize_num_levels: 4,
            },
        }
    }

    /// Shows copies of the given points in the given mode; when their number changed,
    /// every point is shown at `default_size`, otherwise the widths stay.
    pub fn update(&mut self, control_points: &[C], spline_mode: SplineMode, default_size: S)
        ensures
            final(self).data.spline_mode == spline_mode,
            final(self).data.control_points@.len() == control_points@.len(),
            forall|i: int|
                0 <= i < control_points@.len() ==> cloned(
                    control_points@[i],
                    #[trigger] final(self).data.control_points@[i],
                ),
            final(self).data.points_preview_sizes@ == (if old(self).data.control_points@.len()
                != control_points@.len() {
                Seq::new(control_points@.len(), |i: int| default_size)
            } else {
                old(self).data.points_preview_sizes@
            }),
            final(self).data.quantize_num_levels == old(self).data.quantize_num_levels,
    {
        self.data.spline_mode = spline_mode;

        let old_size = self.data.control_points.len();
        let new_size = control_points.len();
        self.data.control_points.clear();
        let mut i: usize = 0;
        while i < new_size
            invariant
                new_size == control_points@.len(),
                i <= new_size,
                self.data.control_points@.len() == i,
                forall|j: int|
                    0 <= j < i ==> cloned(control_points@[j], #[trigger] self.data.control_points@[j]),
                self.data.spline_mode == spline_mode,
                self.data.points_preview_sizes == old(self).data.points_preview_sizes,
                self.data.quantize_num_levels == old(self).data.quantize_num_levels,
            decreases new_size - i,
        {
            self.data.control_points.push(control_points[i].clone());
            i = i + 1;
        }

        if old_size != new_size {
            self.data.points_preview_sizes = repeat(default_size, new_size);
        }
    }
}

} // verus!
