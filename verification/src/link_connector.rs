use vstd::prelude::*;
use crate::link::resolve_link;
use crate::map::SpatialMap;
use crate::world::World;
use crate::Entity;

verus! {

/// One resolution pass over a wire segment's three links.
pub open spec fn connect_wire(w: crate::Wire, m: SpatialMap) -> crate::Wire {
    crate::Wire {
        input: resolve_link(w.input, m),
        output: resolve_link(w.output, m),
        me: resolve_link(w.me, m),
        ..w
    }
}

/// One resolution pass over a wire-in node's two links.
pub open spec fn connect_wire_in(w: crate::WireIn, m: SpatialMap) -> crate::WireIn {
    crate::WireIn { output: resolve_link(w.output, m), me: resolve_link(w.me, m), ..w }
}

/// One resolution pass over a wire-out node's two links.
pub open spec fn connect_wire_out(w: crate::WireOut, m: SpatialMap) -> crate::WireOut {
    crate::WireOut { input: resolve_link(w.input, m), me: resolve_link(w.me, m), ..w }
}

pub open spec fn connect_wire_opt(o: Option<crate::Wire>, m: SpatialMap) -> Option<crate::Wire> {
    match o {
        Some(w) => Some(connect_wire(w, m)),
        None => None,
    }
}

pub open spec fn connect_wire_in_opt(o: Option<crate::WireIn>, m: SpatialMap) -> Option<
    crate::WireIn,
> {
    match o {
        Some(w) => Some(connect_wire_in(w, m)),
        None => None,
    }
}

pub open spec fn connect_wire_out_opt(o: Option<crate::WireOut>, m: SpatialMap) -> Option<
    crate::WireOut,
> {
    match o {
        Some(w) => Some(connect_wire_out(w, m)),
        None => None,
    }
}

/// The link-connector system: every frame it walks every entity
/// holding a wire component and tries to resolve each still-unset
/// link against the spatial map. Already-resolved links are skipped,
/// so the pass is idempotent, and a link whose coordinate is not yet
/// occupied simply stays unresolved until a later frame.
#[derive(Debug)]
pub struct System {}

impl System {
    pub fn new() -> (r: System) {
        System {  }
    }

    /// One frame of link resolution against the current spatial map.
    pub fn run(&mut self, world: &mut World)
        requires
            old(world).wf(),
        ensures
            final(world).wf(),
            final(world).len() == old(world).len(),
            forall|i: int|
                0 <= i < old(world).len() ==> final(world).wires@[i] == connect_wire_opt(
                    old(world).wires@[i],
                    old(world).map,
                ),
            forall|i: int|
                0 <= i < old(world).len() ==> final(world).wires_in@[i] == connect_wire_in_opt(
                    old(world).wires_in@[i],
                    old(world).map,
                ),
            forall|i: int|
                0 <= i < old(world).len() ==> final(world).wires_out@[i] == connect_wire_out_opt(
                    old(world).wires_out@[i],
                    old(world).map,
                ),
            final(world).render_ids@ == old(world).render_ids@,
            final(world).transforms@ == old(world).transforms@,
            final(world).cameras@ == old(world).cameras@,
            final(world).render_datas@ == old(world).render_datas@,
            final(world).clickables@ == old(world).clickables@,
            final(world).map == old(world).map,
    {
        let n = world.wires.len();
        let ghost w0 = *world;
        let mut i: usize = 0;
        while i < n
            invariant
                i <= n,
                n == w0.wires@.len(),
                w0.wf(),
                world.wires@.len() == n,
                forall|j: int|
                    0 <= j < i ==> world.wires@[j] == connect_wire_opt(w0.wires@[j], w0.map),
                forall|j: int| i <= j < n ==> world.wires@[j] == w0.wires@[j],
                world.render_ids@ == w0.render_ids@,
                world.transforms@ == w0.transforms@,
                world.cameras@ == w0.cameras@,
                world.render_datas@ == w0.render_datas@,
                world.clickables@ == w0.clickables@,
                world.wires_in@ == w0.wires_in@,
                world.wires_out@ == w0.wires_out@,
                world.map == w0.map,
            decreases n - i,
        {
            let cur = world.wires[i];
            match cur {
                Some(mut w) => {
                    w.input.resolve_with(&world.map);
                    w.output.resolve_with(&world.map);
                    w.me.resolve_with(&world.map);
                    world.wires[i] = Some(w);
                },
                None => {},
            }
            i = i + 1;
        }

        let n = world.wires_in.len();
        let ghost w1 = *world;
        let mut i: usize = 0;
        while i < n
            invariant
                i <= n,
                n == w1.wires_in@.len(),
                world.wires_in@.len() == n,
                world.map == w1.map,
                forall|j: int|
                    0 <= j < i ==> world.wires_in@[j] == connect_wire_in_opt(
                        w1.wires_in@[j],
                        w1.map,
                    ),
                forall|j: int| i <= j < n ==> world.wires_in@[j] == w1.wires_in@[j],
                world.render_ids@ == w1.render_ids@,
                world.transforms@ == w1.transforms@,
                world.cameras@ == w1.cameras@,
                world.render_datas@ == w1.render_datas@,
                world.clickables@ == w1.clickables@,
                world.wires@ == w1.wires@,
                world.wires_out@ == w1.wires_out@,
            decreases n - i,
        {
            let cur = world.wires_in[i];
            match cur {
                Some(mut w) => {
                    w.output.resolve_with(&world.map);
                    w.me.resolve_with(&world.map);
                    world.wires_in[i] = Some(w);
                },
                None => {},
            }
            i = i + 1;
        }

        let n = world.wires_out.len();
        let ghost w2 = *world;
        let mut i: usize = 0;
        while i < n
            invariant
                i <= n,
                n == w2.wires_out@.len(),
                world.wires_out@.len() == n,
                world.map == w2.map,
                forall|j: int|
                    0 <= j < i ==> world.wires_out@[j] == connect_wire_out_opt(
                        w2.wires_out@[j],
                        w2.map,
                    ),
                forall|j: int| i <= j < n ==> world.wires_out@[j] == w2.wires_out@[j],
                world.render_ids@ == w2.render_ids@,
                world.transforms@ == w2.transforms@,
                world.cameras@ == w2.cameras@,
                world.render_datas@ == w2.render_datas@,
                world.clickables@ == w2.clickables@,
                world.wires@ == w2.wires@,
                world.wires_in@ == w2.wires_in@,
            decreases n - i,
        {
            let cur = world.wires_out[i];
            match cur {
                Some(mut w) => {
                    w.input.resolve_with(&world.map);
                    w.me.resolve_with(&world.map);
                    world.wires_out[i] = Some(w);
                },
                None => {},
            }
            i = i + 1;
        }
    }
}

/// Once the mapper has inserted an entity for a coordinate, one
/// connector pass resolves a wire-in node's upstream link to that
/// entity; later passes keep the cached handle even if the map has
/// since been pointed elsewhere.
pub proof fn lemma_wire_in_resolution_is_permanent(
    w: crate::WireIn,
    m1: SpatialMap,
    m2: SpatialMap,
    e: Entity,
)
    requires
        w.output.fast is None,
        m1.spec_lookup(w.output.slow) == Some(e),
    ensures
        connect_wire_in(w, m1).output.fast == Some(e),
        connect_wire_in(connect_wire_in(w, m1), m2).output.fast == Some(e),
{
}

} // verus!
