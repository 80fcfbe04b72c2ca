use vstd::prelude::*;
use crate::world::World;
use crate::Entity;

verus! {

/// The signal currently carried by the wire node living at an
/// entity, whichever wire component kind it is; wire segments are
/// consulted first, then wire-in nodes, then wire-out nodes.
pub open spec fn node_value(w: World, e: Entity) -> Option<u8> {
    if e < w.wires@.len() && w.wires@[e as int] is Some {
        Some(w.wires@[e as int].unwrap().value)
    } else if e < w.wires_in@.len() && w.wires_in@[e as int] is Some {
        Some(w.wires_in@[e as int].unwrap().value)
    } else if e < w.wires_out@.len() && w.wires_out@[e as int] is Some {
        Some(w.wires_out@[e as int].unwrap().value)
    } else {
        None
    }
}

/// The value feeding a wire-in node this tick: the value of the node
/// its upstream link has resolved to, if it has resolved and a wire
/// node lives there.
pub open spec fn upstream_value(w: World, win: crate::WireIn) -> Option<u8> {
    match win.output.fast {
        Some(e) => node_value(w, e),
        None => None,
    }
}

/// One propagation step of a wire-in node: with a resolved upstream
/// carrying a different value, take that value and mark the change;
/// with a resolved upstream carrying the same value, clear the mark;
/// with no upstream value, stay untouched.
pub open spec fn flow_wire_in(win: crate::WireIn, upstream: Option<u8>) -> crate::WireIn {
    match upstream {
        Some(v) => if v != win.value {
            crate::WireIn { value: v, dirty: true, ..win }
        } else {
            crate::WireIn { dirty: false, ..win }
        },
        None => win,
    }
}

pub open spec fn flow_wire_in_opt(o: Option<crate::WireIn>, w: World) -> Option<crate::WireIn> {
    match o {
        Some(win) => Some(flow_wire_in(win, upstream_value(w, win))),
        None => None,
    }
}

/// The wire-flow system: single-pass signal propagation, one hop per
/// tick, reading every upstream value as it stood at the start of
/// the tick. Multi-hop chains settle over several frames, not within
/// one.
#[derive(Debug)]
pub struct System {}

impl System {
    pub fn new() -> (r: System) {
        System {  }
    }

    /// One propagation tick over every wire-in node.
    pub fn run(&mut self, world: &mut World)
        requires
            old(world).wf(),
        ensures
            final(world).wf(),
            final(world).len() == old(world).len(),
            forall|i: int|
                0 <= i < old(world).len() ==> final(world).wires_in@[i] == flow_wire_in_opt(
                    old(world).wires_in@[i],
                    *old(world),
                ),
            final(world).render_ids@ == old(world).render_ids@,
            final(world).transforms@ == old(world).transforms@,
            final(world).cameras@ == old(world).cameras@,
            final(world).render_datas@ == old(world).render_datas@,
            final(world).clickables@ == old(world).clickables@,
            final(world).wires@ == old(world).wires@,
            final(world).wires_out@ == old(world).wires_out@,
            final(world).map == old(world).map,
    {
        let ghost w0 = *world;
        let n = world.wires_in.len();

        let mut upvals: Vec<Option<u8>> = Vec::new();
        let mut i: usize = 0;
        while i < n
            invariant
                i <= n,
                n == w0.wires_in@.len(),
                w0.wf(),
                *world == w0,
                upvals@.len() == i,
                forall|j: int|
                    0 <= j < i ==> upvals@[j] == (match w0.wires_in@[j] {
                        Some(win) => upstream_value(w0, win),
                        None => None::<u8>,
                    }),
                forall|j: int|
                    0 <= j < i ==> (#[trigger] upvals@[j] matches Some(v) ==> v <= 1),
            decreases n - i,
        {
            let cur = world.wires_in[i];
            let up: Option<u8> = match cur {
                Some(win) => match win.output.fast {
                    Some(e) => Self::node_value_at(world, e),
                    None => None,
                },
                None => None,
            };
            upvals.push(up);
            i = i + 1;
        }

        let mut i: usize = 0;
        while i < n
            invariant
                i <= n,
                n == w0.wires_in@.len(),
                w0.wf(),
                upvals@.len() == n,
                forall|j: int|
                    0 <= j < n ==> upvals@[j] == (match w0.wires_in@[j] {
                        Some(win) => upstream_value(w0, win),
                        None => None::<u8>,
                    }),
                forall|j: int|
                    0 <= j < n ==> (#[trigger] upvals@[j] matches Some(v) ==> v <= 1),
                world.wires_in@.len() == n,
                forall|j: int|
                    0 <= j < i ==> world.wires_in@[j] == flow_wire_in_opt(w0.wires_in@[j], w0),
                forall|j: int| i <= j < n ==> world.wires_in@[j] == w0.wires_in@[j],
                world.render_ids@ == w0.render_ids@,
                world.transforms@ == w0.transforms@,
                world.cameras@ == w0.cameras@,
                world.render_datas@ == w0.render_datas@,
                world.clickables@ == w0.clickables@,
                world.wires@ == w0.wires@,
                world.wires_out@ == w0.wires_out@,
                world.map == w0.map,
            decreases n - i,
        {
            let cur = world.wires_in[i];
            match cur {
                Some(mut win) => {
                    match upvals[i] {
                        Some(v) => {
                            if v != win.value {
                                win.value = v;
                                win.dirty = true;
                            } else {
                                win.dirty = false;
                            }
                        },
                        None => {},
                    }
                    world.wires_in[i] = Some(win);
                },
                None => {},
            }
            i = i + 1;
        }
    }

    /// Reads the signal at an entity, as `node_value` defines it.
    fn node_value_at(world: &World, e: Entity) -> (r: Option<u8>)
        ensures
            r == node_value(*world, e),
    {
        if e < world.wires.len() {
            match world.wires[e] {
                Some(n) => {
                    return Some(n.value);
                },
                None => {},
            }
        }
        if e < world.wires_in.len() {
            match world.wires_in[e] {
                Some(n) => {
                    return Some(n.value);
                },
                None => {},
            }
        }
        if e < world.wires_out.len() {
            match world.wires_out[e] {
                Some(n) => {
                    return Some(n.value);
                },
                None => {},
            }
        }
        None
    }
}

/// A changed upstream signal crosses exactly one hop in one tick:
/// the node takes the value and flags the change; a second tick with
/// the upstream unchanged keeps the value and clears the flag.
pub proof fn lemma_flow_settles_in_one_tick(win: crate::WireIn, v: u8)
    ensures
        flow_wire_in(win, Some(v)).value == v,
        flow_wire_in(win, Some(v)).dirty == (v != win.value),
        flow_wire_in(flow_wire_in(win, Some(v)), Some(v)).value == v,
        !flow_wire_in(flow_wire_in(win, Some(v)), Some(v)).dirty,
{
}

/// A node whose upstream link has not resolved is left completely
/// untouched by a propagation tick.
pub proof fn lemma_flow_skips_unresolved(win: crate::WireIn)
    requires
        win.output.fast is None,
    ensures
        forall|w: World| #[trigger] flow_wire_in(win, upstream_value(w, win)) == win,
{
}

} // verus!
