use vstd::prelude::*;

verus! {

/// Which root of a ray/sphere quadratic is reported as the hit.
#[derive(Clone, Copy, Debug, PartialEq, Eq, Structural)]
pub enum Root {
    /// The smaller root, `(-half_b - sqrt(discriminant)) / a`.
    Near,
    /// The larger root, `(-half_b + sqrt(discriminant)) / a`.
    Far,
}

/// Picks the root that a sphere reports, given whether each root lies inside
/// the accepted parametric interval: the nearer one when it does, else the
/// farther one when it does, else no hit.
pub fn pick_root(near_in_range: bool, far_in_range: bool) -> (r: Option<Root>)
    ensures
        near_in_range ==> r == Some(Root::Near),
        !near_in_range && far_in_range ==> r == Some(Root::Far),
        !near_in_range && !far_in_range ==> r is None,
{
    if near_in_range {
        Some(Root::Near)
    } else if far_in_range {
        Some(Root::Far)
    } else {
        None
    }
}

/// The bound in force after a probe answered `outcome` under `bound`: a hit
/// narrows it to the hit's own bound, a miss leaves it.
pub open spec fn next_bound<B, R>(bound: B, outcome: Option<(B, R)>) -> B {
    match outcome {
        Some((b, _)) => b,
        None => bound,
    }
}

/// The record of the last hit among `outcomes`, if any.
pub open spec fn last_hit<B, R>(outcomes: Seq<Option<(B, R)>>) -> Option<R>
    decreases outcomes.len(),
{
    if outcomes.len() == 0 {
        None
    } else {
        match outcomes.last() {
            Some((_, r)) => Some(r),
            None => last_hit(outcomes.drop_last()),
        }
    }
}

/// `bounds` and `outcomes` record a scan of `elements` under `probe`: element
/// `i` was probed with `bounds[i]` and answered `outcomes[i]`, the first bound
/// is `t_max`, and each later bound is the one the previous answer left.
pub open spec fn scan_trace<H, B, R, F: Fn(&H, B) -> Option<(B, R)>>(
    elements: Seq<H>,
    t_max: B,
    probe: F,
    bounds: Seq<B>,
    outcomes: Seq<Option<(B, R)>>,
) -> bool {
    &&& bounds.len() == elements.len()
    &&& outcomes.len() == elements.len()
    &&& elements.len() > 0 ==> bounds[0] == t_max
    &&& forall|i: int|
        0 <= i < elements.len() ==> call_ensures(probe, (&elements[i], bounds[i]), #[trigger] outcomes[i])
    &&& forall|i: int|
        0 <= i < elements.len() - 1 ==> bounds[i + 1] == next_bound(bounds[i], #[trigger] outcomes[i])
}

/// An ordered collection of surfaces, scanned in insertion order when the
/// nearest hit along a ray is looked for.
pub struct HittableList<H> {
    elements: Vec<H>,
}

impl<H> View for HittableList<H> {
    type V = Seq<H>;

    closed spec fn view(&self) -> Seq<H> {
        self.elements@
    }
}

impl<H> HittableList<H> {
    /// A collection with no surfaces.
    pub fn empty() -> (r: HittableList<H>)
        ensures
            r@ == Seq::<H>::empty(),
    {
        HittableList { elements: Vec::new() }
    }

    /// Appends a surface after all those already held.
    pub fn add(&mut self, h: H)
        ensures
            final(self)@ == old(self)@.push(h),
    {
        self.elements.push(h);
    }

    /// Removes every surface.
    pub fn clear(&mut self)
        ensures
            final(self)@ == Seq::<H>::empty(),
    {
        self.elements.clear();
    }

    /// The nearest hit along a ray: every surface is probed once, in order,
    /// with the upper bound `t_max` narrowed to the bound of the last hit
    /// found so far, and the record of the last hit is returned. A probe that
    /// reports only hits within the bound it is given thus makes the result
    /// the nearest one; `None` when no surface reported a hit.
    pub fn nearest_hit<B: Copy, R, F: Fn(&H, B) -> Option<(B, R)>>(
        &self,
        t_max: B,
        probe: F,
    ) -> (r: Option<R>)
        requires
            forall|h: &H, b: B| call_requires(probe, (h, b)),
        ensures
            exists|bounds: Seq<B>, outcomes: Seq<Option<(B, R)>>|
                #[trigger] scan_trace(self@, t_max, probe, bounds, outcomes) && r == last_hit(outcomes),
    {
        let mut best: Option<R> = None;
        let mut closest_so_far = t_max;
        let ghost mut bounds: Seq<B> = Seq::empty();
        let ghost mut outcomes: Seq<Option<(B, R)>> = Seq::empty();
        let n: usize = self.elements.len();
        let mut i: usize = 0;
        while i < n
            invariant
                n == self@.len(),
                0 <= i <= n,
                forall|h: &H, b: B| call_requires(probe, (h, b)),
                scan_trace(self@.take(i as int), t_max, probe, bounds, outcomes),
                best == last_hit(outcomes),
                closest_so_far == (if i == 0 { t_max } else { next_bound(bounds.last(), outcomes.last()) }),
            decreases n - i,
        {
            let outcome = probe(&self.elements[i], closest_so_far);
            proof {
                bounds = bounds.push(closest_so_far);
            }
            let ghost seen = outcome;
            match outcome {
                Some((b, rec)) => {
                    closest_so_far = b;
                    best = Some(rec);
                },
                None => {},
            }
            proof {
                let before = outcomes;
                outcomes = outcomes.push(seen);
                assert(outcomes.drop_last() =~= before);
            }
            i = i + 1;
        }
        assert(self@.take(n as int) =~= self@);
        best
    }

    /// The number of surfaces held.
    pub fn len(&self) -> (r: usize)
        ensures
            r == self@.len(),
    {
        self.elements.len()
    }

    /// The surface at position `i` in insertion order.
    pub fn get(&self, i: usize) -> (r: &H)
        requires
            i < self@.len(),
        ensures
            *r == self@[i as int],
    {
        &self.elements[i]
    }
}

} // verus!
