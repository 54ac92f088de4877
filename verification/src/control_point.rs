//! Control points of a colour curve: a value, a curve parameter `t`, and up to two
//! tangents (left and right). The value and parameter types are those of the caller.
use vstd::prelude::*;

verus! {

/// What a control point holds.
#[derive(Debug, PartialEq)]
pub struct ControlPointStorage<V, T> {
    pub val: V,
    pub t: T,
    pub tangents: [Option<V>; 2],
}

/// A control point, either without tangents of its own or with left and right ones.
#[derive(Debug, PartialEq)]
pub enum ControlPoint<V, T> {
    ControlPointSimple(ControlPointStorage<V, T>),
    ControlPointLeftRightTangent(ControlPointStorage<V, T>),
}

impl<V, T> ControlPoint<V, T> {
    /// What the point holds, whichever its kind.
    pub open spec fn spec_storage(self) -> ControlPointStorage<V, T> {
        match self {
            ControlPoint::ControlPointSimple(c) => c,
            ControlPoint::ControlPointLeftRightTangent(c) => c,
        }
    }

    /// The same point with its storage replaced.
    pub open spec fn with_storage(self, c: ControlPointStorage<V, T>) -> Self {
        match self {
            ControlPoint::ControlPointSimple(_) => ControlPoint::ControlPointSimple(c),
            ControlPoint::ControlPointLeftRightTangent(_) => ControlPoint::ControlPointLeftRightTangent(c),
        }
    }

    /// The same point with its two tangents exchanged.
    pub open spec fn flipped(self) -> Self {
        let c = self.spec_storage();
        self.with_storage(
            ControlPointStorage { val: c.val, t: c.t, tangents: [c.tangents[1], c.tangents[0]] },
        )
    }

    /// A point without tangents.
    pub fn new_simple(val: V, t: T) -> (res: Self)
        ensures
            res == ControlPoint::ControlPointSimple(
                ControlPointStorage { val, t, tangents: [None, None] },
            ),
    {
        ControlPoint::ControlPointSimple(ControlPointStorage { val, t, tangents: [None, None] })
    }

    /// A point with the given left and right tangents.
    pub fn new(val: V, t: T, tangents: [Option<V>; 2]) -> (res: Self)
        ensures
            res == ControlPoint::ControlPointLeftRightTangent(
                ControlPointStorage { val, t, tangents },
            ),
    {
        ControlPoint::ControlPointLeftRightTangent(ControlPointStorage { val, t, tangents })
    }

    pub fn storage(&self) -> (res: &ControlPointStorage<V, T>)
        ensures
            *res == self.spec_storage(),
    {
        match self {
            ControlPoint::ControlPointSimple(c) => c,
            ControlPoint::ControlPointLeftRightTangent(c) => c,
        }
    }

    pub fn storage_mut(&mut self) -> (res: &mut ControlPointStorage<V, T>)
        ensures
            *res == old(self).spec_storage(),
            *final(self) == old(self).with_storage(*final(res)),
    {
        match self {
            ControlPoint::ControlPointSimple(c) => c,
            ControlPoint::ControlPointLeftRightTangent(c) => c,
        }
    }

    pub fn val_mut(&mut self) -> (res: &mut V)
        ensures
            *res == old(self).spec_storage().val,
            *final(self) == old(self).with_storage(
                ControlPointStorage { val: *final(res), ..old(self).spec_storage() },
            ),
    {
        &mut self.storage_mut().val
    }

    pub fn t_mut(&mut self) -> (res: &mut T)
        ensures
            *res == old(self).spec_storage().t,
            *final(self) == old(self).with_storage(
                ControlPointStorage { t: *final(res), ..old(self).spec_storage() },
            ),
    {
        &mut self.storage_mut().t
    }

    pub fn tangents_mut(&mut self) -> (res: &mut [Option<V>; 2])
        ensures
            *res == old(self).spec_storage().tangents,
            *final(self) == old(self).with_storage(
                ControlPointStorage { tangents: *final(res), ..old(self).spec_storage() },
            ),
    {
        &mut self.storage_mut().tangents
    }

    pub fn val(&self) -> (res: &V)
        ensures
            *res == self.spec_storage().val,
    {
        &self.storage().val
    }

    pub fn t(&self) -> (res: &T)
        ensures
            *res == self.spec_storage().t,
    {
        &self.storage().t
    }

    pub fn tangents(&self) -> (res: &[Option<V>; 2])
        ensures
            *res == self.spec_storage().tangents,
    {
        &self.storage().tangents
    }

    /// Exchanges the left and right tangents.
    pub fn flip_tangents(&mut self)
        ensures
            *final(self) == old(self).flipped(),
    {
        match self {
            ControlPoint::ControlPointSimple(c) => swap_tangents(c),
            ControlPoint::ControlPointLeftRightTangent(c) => swap_tangents(c),
        }
    }
}

/// `after` is `before`, or a clone of `tangent` where `before` had none.
pub open spec fn tangent_filled<V: Clone>(before: Option<V>, after: Option<V>, tangent: V) -> bool {
    match before {
        Some(x) => after == Some(x),
        None => after matches Some(y) && cloned(tangent, y),
    }
}

/// `b` is `a` with each missing tangent replaced by a clone of `tangent`.
pub open spec fn tangents_filled<V: Clone, T>(
    a: ControlPoint<V, T>,
    b: ControlPoint<V, T>,
    tangent: V,
) -> bool {
    &&& (a is ControlPointSimple <==> b is ControlPointSimple)
    &&& b.spec_storage().val == a.spec_storage().val
    &&& b.spec_storage().t == a.spec_storage().t
    &&& tangent_filled(a.spec_storage().tangents[0], b.spec_storage().tangents[0], tangent)
    &&& tangent_filled(a.spec_storage().tangents[1], b.spec_storage().tangents[1], tangent)
}

impl<V: Clone, T> ControlPoint<V, T> {
    /// Gives the point a clone of `tangent` on each side where it has no tangent.
    pub fn fill_missing_tangents(&mut self, tangent: &V)
        ensures
            tangents_filled(*old(self), *final(self), *tangent),
    {
        match self {
            ControlPoint::ControlPointSimple(c) => fill_storage_tangents(c, tangent),
            ControlPoint::ControlPointLeftRightTangent(c) => fill_storage_tangents(c, tangent),
        }
    }
}

fn fill_storage_tangents<V: Clone, T>(c: &mut ControlPointStorage<V, T>, tangent: &V)
    ensures
        final(c).val == old(c).val,
        final(c).t == old(c).t,
        tangent_filled(old(c).tangents[0], final(c).tangents[0], *tangent),
        tangent_filled(old(c).tangents[1], final(c).tangents[1], *tangent),
{
    let left = c.tangents[0].take();
    let right = c.tangents[1].take();
    let new_left = match left {
        Some(x) => Some(x),
        None => Some(tangent.clone()),
    };
    let new_right = match right {
        Some(x) => Some(x),
        None => Some(tangent.clone()),
    };
    c.tangents = [new_left, new_right];
}

fn swap_tangents<V, T>(c: &mut ControlPointStorage<V, T>)
    ensures
        final(c).val == old(c).val,
        final(c).t == old(c).t,
        final(c).tangents == [old(c).tangents[1], old(c).tangents[0]],
{
    let left = c.tangents[0].take();
    let right = c.tangents[1].take();
    c.tangents = [right, left];
}

impl<V: Clone, T: Clone> Clone for ControlPointStorage<V, T> {
    fn clone(&self) -> (res: Self)
        ensures
            cloned(self.val, res.val),
            cloned(self.t, res.t),
            cloned(self.tangents[0], res.tangents[0]),
            cloned(self.tangents[1], res.tangents[1]),
    {
        ControlPointStorage {
            val: self.val.clone(),
            t: self.t.clone(),
            tangents: [self.tangents[0].clone(), self.tangents[1].clone()],
        }
    }
}

impl<V: Clone, T: Clone> Clone for ControlPoint<V, T> {
    fn clone(&self) -> (res: Self)
        ensures
            res is ControlPointSimple <==> self is ControlPointSimple,
            cloned(self.spec_storage().val, res.spec_storage().val),
            cloned(self.spec_storage().t, res.spec_storage().t),
            cloned(self.spec_storage().tangents[0], res.spec_storage().tangents[0]),
            cloned(self.spec_storage().tangents[1], res.spec_storage().tangents[1]),
    {
        match self {
            ControlPoint::ControlPointSimple(c) => ControlPoint::ControlPointSimple(c.clone()),
            ControlPoint::ControlPointLeftRightTangent(c) => ControlPoint::ControlPointLeftRightTangent(
                c.clone(),
            ),
        }
    }
}

/// Exchanging the tangents twice gives back the point.
pub proof fn lemma_flipped_twice<V, T>(cp: ControlPoint<V, T>)
    ensures
        cp.flipped().flipped() == cp,
{
    let c = cp.spec_storage();
    let d = cp.flipped().flipped().spec_storage();
    assert(d.tangents =~= c.tangents);
}

} // verus!
