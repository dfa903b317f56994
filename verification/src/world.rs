//! The scene: a collection of surfaces, itself a surface.

use crate::hitable::{spec_keeps_bounds, spec_within, HitRecord, Hitable};
use crate::ray::Ray;
use crate::scalar::{defined, exact, function_of, functional, total, Scalar};
use vstd::prelude::*;
use vstd::std_specs::cmp::PartialOrdIs;

verus! {

/// The surfaces of a scene, in the order in which they were added.
pub struct World<H>(Vec<H>);

impl<H> View for World<H> {
    type V = Seq<H>;

    closed spec fn view(&self) -> Seq<H> {
        self.0@
    }
}

/// The upper bound within which the next surface is asked: the parameter of
/// the nearest meeting found so far, `t_max` while there is none.
pub open spec fn spec_bound<T: Scalar, M>(found: Option<HitRecord<'_, T, M>>, t_max: T) -> T {
    match found {
        Some(hit) => hit.t,
        None => t_max,
    }
}

/// The nearest meeting of `ray` with the surfaces `items`, strictly between
/// `t_min` and `t_max`.
///
/// The surfaces are asked in order, each within the bound that its
/// predecessors leave: a later surface replaces what was found only with a
/// meeting strictly nearer. Of two surfaces met at the same parameter the
/// earlier one stays.
pub open spec fn spec_closest<'a, T: Scalar, H: Hitable<T>>(
    items: Seq<H>,
    ray: Ray<T>,
    t_min: T,
    t_max: T,
    root: spec_fn(T) -> T,
) -> Option<HitRecord<'a, T, H::Material>>
    decreases items.len(),
{
    if items.len() == 0 {
        None
    } else {
        let before = spec_closest(items.drop_last(), ray, t_min, t_max, root);
        match items.last().spec_hit(ray, t_min, spec_bound(before, t_max), root) {
            Some(hit) => Some(hit),
            None => before,
        }
    }
}

impl<H> World<H> {
    /// The empty scene.
    pub fn new() -> (world: World<H>)
        ensures
            world@ == Seq::<H>::empty(),
    {
        World(Vec::new())
    }

    /// Adds `item` behind the surfaces that the scene holds.
    pub fn push(&mut self, item: H)
        ensures
            final(self)@ == old(self)@.push(item),
    {
        self.0.push(item);
    }

    /// The surfaces themselves, to be read or changed in place.
    pub fn collection(&mut self) -> (items: &mut Vec<H>)
        ensures
            items@ == old(self)@,
            final(self)@ == final(items)@,
    {
        &mut self.0
    }
}

impl<T: Scalar, H: Hitable<T>> Hitable<T> for World<H> {
    type Material = H::Material;

    open spec fn spec_hit(&self, ray: Ray<T>, t_min: T, t_max: T, root: spec_fn(T) -> T) -> Option<
        HitRecord<'_, T, H::Material>,
    > {
        spec_closest(self@, ray, t_min, t_max, root)
    }

    /// Asks every surface in turn, each only for a meeting nearer than the
    /// nearest found before it.
    fn hit<R: Fn(T) -> T>(&self, ray: &Ray<T>, t_min: T, t_max: T, root: &R) -> (r: Option<
        HitRecord<'_, T, H::Material>,
    >) {
        let mut closest = t_max;
        let mut found: Option<HitRecord<'_, T, H::Material>> = None;
        let mut i: usize = 0;
        while i < self.0.len()
            invariant
                i <= self.0.len(),
                total::<T>(),
                defined(*root),
                closest == spec_bound(found, t_max),
                exact::<T>() && functional(*root) ==> found == spec_closest(
                    self@.take(i as int),
                    *ray,
                    t_min,
                    t_max,
                    function_of(*root),
                ),
            decreases self.0.len() - i,
        {
            proof {
                assert(self@.take(i + 1).drop_last() =~= self@.take(i as int));
            }
            if let Some(hit) = self.0[i].hit(ray, t_min, closest, root) {
                closest = hit.t;
                found = Some(hit);
            }
            i += 1;
        }
        proof {
            assert(self@.take(i as int) =~= self@);
        }
        found
    }
}

/// A ray meets nothing in a scene without surfaces.
pub proof fn lemma_empty_world_hits_nothing<T: Scalar, H: Hitable<T>>(
    world: &World<H>,
    ray: Ray<T>,
    t_min: T,
    t_max: T,
    root: spec_fn(T) -> T,
)
    requires
        world@.len() == 0,
    ensures
        world.spec_hit(ray, t_min, t_max, root) is None,
{
}

/// What a scene has found is never lost to a surface added behind the
/// others, and is replaced only by that surface's own meeting within the
/// bound that the earlier surfaces leave.
pub proof fn lemma_later_surface_only_narrows<T: Scalar, H: Hitable<T>>(
    items: Seq<H>,
    last: H,
    ray: Ray<T>,
    t_min: T,
    t_max: T,
    root: spec_fn(T) -> T,
)
    ensures
        ({
            let before = spec_closest(items, ray, t_min, t_max, root);
            let after = spec_closest(items.push(last), ray, t_min, t_max, root);
            let own = last.spec_hit(ray, t_min, spec_bound(before, t_max), root);
            &&& before is Some ==> after is Some
            &&& after == before || (own is Some && after == own)
        }),
{
    assert(items.push(last).drop_last() =~= items);
}

/// `a` is less than `b`.
pub open spec fn spec_below<T: Scalar>(a: T, b: T) -> bool {
    a.is_lt(&b)
}

/// The scalar's order is transitive.
pub open spec fn spec_transitive<T: Scalar>() -> bool {
    forall|a: T, b: T, c: T| #[trigger]
        spec_below(a, b) && #[trigger] spec_below(b, c) ==> spec_below(a, c)
}

/// Where the order is transitive and every surface keeps to the interval it
/// is asked for, so does the scene: what it finds lies strictly between
/// `t_min` and `t_max`.
pub proof fn lemma_scene_keeps_bounds<T: Scalar, H: Hitable<T>>(
    items: Seq<H>,
    ray: Ray<T>,
    t_min: T,
    t_max: T,
    root: spec_fn(T) -> T,
)
    requires
        spec_transitive::<T>(),
        forall|i: int| 0 <= i < items.len() ==> spec_keeps_bounds(#[trigger] items[i], ray, root),
    ensures
        spec_closest(items, ray, t_min, t_max, root) matches Some(hit) ==> spec_within(
            hit.t,
            t_min,
            t_max,
        ),
    decreases items.len(),
{
    if items.len() > 0 {
        let earlier = items.drop_last();
        lemma_scene_keeps_bounds(earlier, ray, t_min, t_max, root);
        let before = spec_closest(earlier, ray, t_min, t_max, root);
        let bound = spec_bound(before, t_max);
        assert(spec_keeps_bounds(items[items.len() - 1], ray, root));
        match items.last().spec_hit(ray, t_min, bound, root) {
            Some(hit) => {
                assert(spec_within(hit.t, t_min, bound));
                if before is Some {
                    assert(spec_below(hit.t, bound) && spec_below(bound, t_max));
                    assert(spec_below(hit.t, t_max));
                }
            },
            None => {},
        }
    }
}

/// What the surface at place `i` answers when the scene asks it: its meeting
/// within the bound that the surfaces before it leave.
pub open spec fn spec_reported<'a, T: Scalar, H: Hitable<T>>(
    items: Seq<H>,
    i: int,
    ray: Ray<T>,
    t_min: T,
    t_max: T,
    root: spec_fn(T) -> T,
) -> Option<HitRecord<'a, T, H::Material>> {
    items[i].spec_hit(
        ray,
        t_min,
        spec_bound(spec_closest(items.take(i), ray, t_min, t_max, root), t_max),
        root,
    )
}

/// `found` is a meeting at the parameter `t` or at one below it.
pub open spec fn spec_not_farther<T: Scalar, M>(found: Option<HitRecord<'_, T, M>>, t: T) -> bool {
    found matches Some(hit) && (hit.t == t || spec_below(hit.t, t))
}

proof fn lemma_prefix_not_farther<T: Scalar, H: Hitable<T>>(
    items: Seq<H>,
    i: int,
    k: int,
    ray: Ray<T>,
    t_min: T,
    t_max: T,
    root: spec_fn(T) -> T,
)
    requires
        spec_transitive::<T>(),
        forall|j: int| 0 <= j < items.len() ==> spec_keeps_bounds(#[trigger] items[j], ray, root),
        0 <= i < k <= items.len(),
        spec_reported(items, i, ray, t_min, t_max, root) is Some,
    ensures
        spec_not_farther(
            spec_closest(items.take(k), ray, t_min, t_max, root),
            spec_reported(items, i, ray, t_min, t_max, root)->0.t,
        ),
    decreases k,
{
    let t = spec_reported(items, i, ray, t_min, t_max, root)->0.t;
    assert(items.take(k).drop_last() =~= items.take(k - 1));
    assert(items.take(k).last() == items[k - 1]);
    if k > i + 1 {
        lemma_prefix_not_farther(items, i, k - 1, ray, t_min, t_max, root);
        let before = spec_closest(items.take(k - 1), ray, t_min, t_max, root);
        assert(spec_keeps_bounds(items[k - 1], ray, root));
        match items[k - 1].spec_hit(ray, t_min, before->0.t, root) {
            Some(hit) => {
                assert(spec_within(hit.t, t_min, before->0.t));
                assert(spec_below(hit.t, before->0.t));
                if before->0.t != t {
                    assert(spec_below(before->0.t, t));
                }
            },
            None => {},
        }
    }
}

/// A later, farther meeting never takes the place of a nearer one: where
/// the order is transitive and every surface keeps to the interval it is
/// asked for, what the scene finds is at the parameter of any meeting that
/// a surface reported to it, or below.
pub proof fn lemma_scene_finds_the_nearest<T: Scalar, H: Hitable<T>>(
    items: Seq<H>,
    i: int,
    ray: Ray<T>,
    t_min: T,
    t_max: T,
    root: spec_fn(T) -> T,
)
    requires
        spec_transitive::<T>(),
        forall|j: int| 0 <= j < items.len() ==> spec_keeps_bounds(#[trigger] items[j], ray, root),
        0 <= i < items.len(),
    ensures
        spec_reported(items, i, ray, t_min, t_max, root) matches Some(reported)
            ==> spec_not_farther(spec_closest(items, ray, t_min, t_max, root), reported.t),
{
    if spec_reported(items, i, ray, t_min, t_max, root) is Some {
        lemma_prefix_not_farther(items, i, items.len() as int, ray, t_min, t_max, root);
        assert(items.take(items.len() as int) =~= items);
    }
}

} // verus!
