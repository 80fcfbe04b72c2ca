use vstd::prelude::*;
use crate::math::Point3I;
use crate::Entity;

verus! {

/// Looks a key up in an association list, later entries shadowing
/// earlier ones.
pub open spec fn lookup_seq(s: Seq<(Point3I, Entity)>, k: Point3I) -> Option<Entity>
    decreases s.len(),
{
    if s.len() == 0 {
        None
    } else if s.last().0 == k {
        Some(s.last().1)
    } else {
        lookup_seq(s.drop_last(), k)
    }
}

/// The spatial map: logical grid coordinate to entity handle, keys
/// unique, no ordering guarantee.
#[derive(Debug, Clone)]
pub struct SpatialMap {
    pub pairs: Vec<(Point3I, Entity)>,
}

/// Relates a map after an insertion to the map before it: the given
/// key now resolves to the given entity and every other key is
/// untouched.
pub open spec fn inserted(pre: SpatialMap, post: SpatialMap, k: Point3I, e: Entity) -> bool {
    forall|q: Point3I|
        #[trigger] post.spec_lookup(q) == if q == k {
            Some(e)
        } else {
            pre.spec_lookup(q)
        }
}

impl SpatialMap {
    /// Keys occur at most once.
    pub open spec fn wf(&self) -> bool {
        forall|i: int, j: int|
            0 <= i < j < self.pairs@.len() ==> (#[trigger] self.pairs@[i]).0 != (
            #[trigger] self.pairs@[j]).0
    }

    pub open spec fn spec_lookup(&self, k: Point3I) -> Option<Entity> {
        lookup_seq(self.pairs@, k)
    }

    pub fn new() -> (r: SpatialMap)
        ensures
            r.wf(),
            forall|q: Point3I| #[trigger] r.spec_lookup(q) is None,
            r.pairs@.len() == 0,
    {
        SpatialMap { pairs: Vec::new() }
    }

    /// Returns the entity mapped at the coordinate, if any.
    pub fn lookup(&self, k: &Point3I) -> (r: Option<Entity>)
        ensures
            r == self.spec_lookup(*k),
    {
        let n = self.pairs.len();
        proof {
            assert(self.pairs@.take(n as int) =~= self.pairs@);
        }
        let mut i: usize = n;
        while i > 0
            invariant
                i <= n,
                n == self.pairs@.len(),
                lookup_seq(self.pairs@, *k) == lookup_seq(self.pairs@.take(i as int), *k),
            decreases i,
        {
            i = i - 1;
            let pair = &self.pairs[i];
            proof {
                assert(self.pairs@.take(i + 1).last() == self.pairs@[i as int]);
                assert(self.pairs@.take(i + 1).drop_last() =~= self.pairs@.take(i as int));
            }
            if pair.0 == *k {
                return Some(pair.1);
            }
        }
        proof {
            assert(self.pairs@.take(0).len() == 0);
        }
        None
    }

    /// Inserts a mapping, overwriting any existing mapping at that
    /// coordinate: last write wins.
    pub fn insert(&mut self, k: Point3I, e: Entity)
        requires
            old(self).wf(),
            old(self).pairs@.len() < usize::MAX,
        ensures
            final(self).wf(),
            inserted(*old(self), *final(self), k, e),
            final(self).pairs@.len() <= old(self).pairs@.len() + 1,
    {
        let n = self.pairs.len();
        let mut i: usize = 0;
        while i < n
            invariant
                i <= n,
                n == self.pairs@.len(),
                self == old(self),
                self.wf(),
                forall|j: int| 0 <= j < i ==> (#[trigger] self.pairs@[j]).0 != k,
            decreases n - i,
        {
            if self.pairs[i].0 == k {
                let ghost pre = self.pairs@;
                self.pairs[i] = (k, e);
                proof {
                    lemma_lookup_update(pre, i as int, k, e);
                    assert forall|a: int, b: int|
                        0 <= a < b < self.pairs@.len() implies (#[trigger] self.pairs@[a]).0 != (
                    #[trigger] self.pairs@[b]).0 by {
                        assert(pre[a].0 != pre[b].0);
                    }
                }
                return ;
            }
            i = i + 1;
        }
        let ghost pre = self.pairs@;
        self.pairs.push((k, e));
        proof {
            assert(self.pairs@.drop_last() =~= pre);
            assert(forall|q: Point3I|
                q != k ==> #[trigger] lookup_seq(self.pairs@, q) == lookup_seq(pre, q));
        }
    }
}

/// Updating the entry that holds a key rewrites that key's image and
/// leaves every other key's image alone.
proof fn lemma_lookup_update(s: Seq<(Point3I, Entity)>, i: int, k: Point3I, e: Entity)
    requires
        0 <= i < s.len(),
        s[i].0 == k,
        forall|a: int, b: int| 0 <= a < b < s.len() ==> (#[trigger] s[a]).0 != (#[trigger] s[b]).0,
    ensures
        forall|q: Point3I|
            #[trigger] lookup_seq(s.update(i, (k, e)), q) == if q == k {
                Some(e)
            } else {
                lookup_seq(s, q)
            },
    decreases s.len(),
{
    let s2 = s.update(i, (k, e));
    if i == s.len() - 1 {
        assert(s2.last() == (k, e));
        assert(s2.drop_last() =~= s.drop_last());
        assert forall|q: Point3I| q != k implies #[trigger] lookup_seq(s2, q) == lookup_seq(s, q) by {
            assert(s.last().0 == k);
        }
    } else {
        assert(s2.last() == s.last());
        assert(s.last().0 != k);
        assert(s2.drop_last() =~= s.drop_last().update(i, (k, e)));
        lemma_lookup_update(s.drop_last(), i, k, e);
        assert forall|q: Point3I|
            #[trigger] lookup_seq(s2, q) == (if q == k {
                Some(e)
            } else {
                lookup_seq(s, q)
            }) by {
            if s2.last().0 == q {
                assert(lookup_seq(s2, q) == Some(s.last().1));
                assert(lookup_seq(s, q) == Some(s.last().1));
            } else {
                assert(lookup_seq(s2, q) == lookup_seq(s2.drop_last(), q));
                assert(lookup_seq(s, q) == lookup_seq(s.drop_last(), q));
            }
        }
    }
}

/// Inserting a coordinate makes an immediate lookup return that
/// entity; a second insertion at the same coordinate overwrites the
/// first, and no other coordinate is disturbed by either.
pub proof fn lemma_insert_then_lookup(
    m0: SpatialMap,
    m1: SpatialMap,
    m2: SpatialMap,
    c: Point3I,
    e1: Entity,
    e2: Entity,
)
    requires
        inserted(m0, m1, c, e1),
        inserted(m1, m2, c, e2),
    ensures
        m1.spec_lookup(c) == Some(e1),
        m2.spec_lookup(c) == Some(e2),
        forall|q: Point3I| q != c ==> #[trigger] m2.spec_lookup(q) == m0.spec_lookup(q),
{
}

} // verus!
