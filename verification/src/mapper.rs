use vstd::prelude::*;
use std::sync::mpsc::{Receiver, Sender};
use crate::channel::{try_recv_value, Polled, DRAIN_LIMIT};
use crate::map::inserted;
use crate::math::Point3I;
use crate::world::World;
use crate::Entity;

verus! {

/// An insertion request for the spatial map.
pub enum RecvEvent {
    NewMapping(Point3I, Entity),
}

/// The mapper system's end of its channel: it only ever receives;
/// it has nothing to report back.
pub type MapperEnd = Receiver<RecvEvent>;

/// The game's end of the mapper channel.
pub type GameEnd = Sender<RecvEvent>;

/// The mapper system: insertion requests produced anywhere in
/// gameplay arrive on a dedicated queue and are applied to the
/// spatial map at this single point of the frame, so reads never
/// interleave with writes. A disconnected queue is treated like an
/// empty one, not as fatal.
pub struct System {
    pub channel: MapperEnd,
}

impl System {
    pub fn new(channel: MapperEnd) -> (r: System)
        ensures
            r.channel == channel,
    {
        System { channel }
    }

    /// Applies one insertion request: last write wins at the
    /// coordinate, every other coordinate untouched.
    pub fn apply_mapping(world: &mut World, location: Point3I, entity: Entity)
        requires
            old(world).wf(),
            old(world).map.pairs@.len() < usize::MAX,
        ensures
            final(world).wf(),
            inserted(old(world).map, final(world).map, location, entity),
            final(world).render_ids@ == old(world).render_ids@,
            final(world).transforms@ == old(world).transforms@,
            final(world).cameras@ == old(world).cameras@,
            final(world).render_datas@ == old(world).render_datas@,
            final(world).clickables@ == old(world).clickables@,
            final(world).wires@ == old(world).wires@,
            final(world).wires_in@ == old(world).wires_in@,
            final(world).wires_out@ == old(world).wires_out@,
    {
        world.map.insert(location, entity);
    }

    /// One frame of the mapper: drains the queued insertion requests
    /// and applies each to the spatial map in arrival order.
    pub fn run(&mut self, world: &mut World)
        requires
            old(world).wf(),
        ensures
            final(world).wf(),
            final(world).render_ids@ == old(world).render_ids@,
            final(world).transforms@ == old(world).transforms@,
            final(world).cameras@ == old(world).cameras@,
            final(world).render_datas@ == old(world).render_datas@,
            final(world).clickables@ == old(world).clickables@,
            final(world).wires@ == old(world).wires@,
            final(world).wires_in@ == old(world).wires_in@,
            final(world).wires_out@ == old(world).wires_out@,
    {
        let mut fuel: usize = DRAIN_LIMIT;
        while fuel > 0
            invariant
                world.wf(),
                world.render_ids@ == old(world).render_ids@,
                world.transforms@ == old(world).transforms@,
                world.cameras@ == old(world).cameras@,
                world.render_datas@ == old(world).render_datas@,
                world.clickables@ == old(world).clickables@,
                world.wires@ == old(world).wires@,
                world.wires_in@ == old(world).wires_in@,
                world.wires_out@ == old(world).wires_out@,
            decreases fuel,
        {
            fuel = fuel - 1;
            match try_recv_value(&self.channel) {
                Polled::Event(RecvEvent::NewMapping(location, entity)) => {
                    if world.map.pairs.len() < usize::MAX {
                        Self::apply_mapping(world, location, entity);
                    }
                },
                Polled::Empty => {
                    return ;
                },
                Polled::Closed => {
                    return ;
                },
            }
        }
    }
}

} // verus!
