use vstd::prelude::*;
use crate::map::SpatialMap;
use crate::math::Point3I;
use crate::Entity;

verus! {

/// A lazily-resolved reference to a neighboring entity: the slow half
/// is a logical grid coordinate, the fast half caches the entity
/// handle found for it. Once resolved, the cache is never rewritten,
/// even if the spatial map later maps the coordinate elsewhere.
#[derive(Debug, Clone, Copy, PartialEq, Eq, Structural)]
pub struct Link {
    pub slow: Point3I,
    pub fast: Option<Entity>,
}

/// What one resolution pass leaves a link as: an already-resolved
/// link is kept, an unresolved one takes whatever the map holds for
/// its coordinate (possibly still nothing).
pub open spec fn resolve_link(l: Link, m: SpatialMap) -> Link {
    if l.fast is Some {
        l
    } else {
        Link { slow: l.slow, fast: m.spec_lookup(l.slow) }
    }
}

impl Link {
    pub fn new(slow: Point3I) -> (r: Link)
        ensures
            r.slow == slow,
            r.fast is None,
    {
        Link { slow, fast: None }
    }

    pub fn get_slow(&self) -> (r: &Point3I)
        ensures
            *r == self.slow,
    {
        &self.slow
    }

    pub fn get_fast(&self) -> (r: Option<&Entity>)
        ensures
            r is Some <==> self.fast is Some,
            r is Some ==> *r.unwrap() == self.fast.unwrap(),
    {
        self.fast.as_ref()
    }

    /// One resolution attempt against the spatial map; does nothing
    /// if the link is already resolved.
    pub fn resolve_with(&mut self, m: &SpatialMap)
        ensures
            *final(self) == resolve_link(*old(self), *m),
    {
        if self.fast.is_none() {
            self.fast = m.lookup(&self.slow);
        }
    }
}

/// A resolved link survives any later resolution pass unchanged, no
/// matter what the map now holds for its coordinate: the cached
/// handle is trusted forever, a deliberate stale-reference tradeoff.
pub proof fn lemma_resolved_link_is_stable(l: Link, m: SpatialMap, e: Entity)
    requires
        l.fast == Some(e),
    ensures
        resolve_link(l, m) == l,
        resolve_link(l, m).fast == Some(e),
{
}

/// An unresolved link picks up exactly the map's entry for its
/// coordinate, once one exists.
pub proof fn lemma_unresolved_link_takes_map_entry(l: Link, m: SpatialMap, e: Entity)
    requires
        l.fast is None,
        m.spec_lookup(l.slow) == Some(e),
    ensures
        resolve_link(l, m).fast == Some(e),
        resolve_link(l, m).slow == l.slow,
{
}

} // verus!
