use vstd::prelude::*;
use crate::map::SpatialMap;
use crate::Entity;

verus! {

/// The component set a new entity is created with; every table the
/// entity does not participate in stays `None`.
#[derive(Debug, Clone)]
pub struct Components {
    pub render_id: Option<crate::RenderId>,
    pub transform: Option<crate::Transform>,
    pub camera: Option<crate::Camera>,
    pub render_data: Option<crate::RenderData>,
    pub clickable: Option<crate::Clickable>,
    pub wire: Option<crate::Wire>,
    pub wire_in: Option<crate::WireIn>,
    pub wire_out: Option<crate::WireOut>,
}

impl Components {
    /// Every attached component is well-formed.
    pub open spec fn wf(&self) -> bool {
        &&& (self.transform matches Some(t) ==> t.wf())
        &&& (self.camera matches Some(c) ==> c.wf())
        &&& (self.render_data matches Some(d) ==> d.wf())
        &&& (self.clickable matches Some(c) ==> c.wf())
        &&& (self.wire matches Some(w) ==> w.wf())
        &&& (self.wire_in matches Some(w) ==> w.wf())
        &&& (self.wire_out matches Some(w) ==> w.wf())
    }

    pub fn empty() -> (r: Components)
        ensures
            r.render_id is None,
            r.transform is None,
            r.camera is None,
            r.render_data is None,
            r.clickable is None,
            r.wire is None,
            r.wire_in is None,
            r.wire_out is None,
            r.wf(),
    {
        Components {
            render_id: None,
            transform: None,
            camera: None,
            render_data: None,
            clickable: None,
            wire: None,
            wire_in: None,
            wire_out: None,
        }
    }

    pub fn with_render_id(self, c: crate::RenderId) -> (r: Components)
        ensures
            r == (Components { render_id: Some(c), ..self }),
    {
        Components { render_id: Some(c), ..self }
    }

    pub fn with_transform(self, c: crate::Transform) -> (r: Components)
        ensures
            r == (Components { transform: Some(c), ..self }),
    {
        Components { transform: Some(c), ..self }
    }

    pub fn with_camera(self, c: crate::Camera) -> (r: Components)
        ensures
            r == (Components { camera: Some(c), ..self }),
    {
        Components { camera: Some(c), ..self }
    }

    pub fn with_render_data(self, c: crate::RenderData) -> (r: Components)
        ensures
            r == (Components { render_data: Some(c), ..self }),
    {
        Components { render_data: Some(c), ..self }
    }

    pub fn with_clickable(self, c: crate::Clickable) -> (r: Components)
        ensures
            r == (Components { clickable: Some(c), ..self }),
    {
        Components { clickable: Some(c), ..self }
    }

    pub fn with_wire(self, c: crate::Wire) -> (r: Components)
        ensures
            r == (Components { wire: Some(c), ..self }),
    {
        Components { wire: Some(c), ..self }
    }

    pub fn with_wire_in(self, c: crate::WireIn) -> (r: Components)
        ensures
            r == (Components { wire_in: Some(c), ..self }),
    {
        Components { wire_in: Some(c), ..self }
    }

    pub fn with_wire_out(self, c: crate::WireOut) -> (r: Components)
        ensures
            r == (Components { wire_out: Some(c), ..self }),
    {
        Components { wire_out: Some(c), ..self }
    }
}

/// Entity `i` carries the main camera and no lower-numbered entity
/// does: it is the camera every per-tick update applies to.
pub open spec fn is_first_main_camera(w: World, i: int) -> bool {
    &&& 0 <= i < w.cameras@.len()
    &&& (w.cameras@[i] matches Some(c) && c.is_main)
    &&& forall|j: int| 0 <= j < i ==> !(#[trigger] w.cameras@[j] matches Some(c2) && c2.is_main)
}

/// Camera tables that agree row by row on which entities carry a
/// camera and which of those are flagged main agree on where the
/// first main camera stands.
pub proof fn lemma_first_main_agrees(a: World, b: World)
    requires
        a.cameras@.len() == b.cameras@.len(),
        forall|j: int|
            0 <= j < a.cameras@.len() ==> (((#[trigger] a.cameras@[j]) matches Some(c)
                && c.is_main) == (b.cameras@[j] matches Some(c2) && c2.is_main)),
    ensures
        forall|i: int| #[trigger] is_first_main_camera(a, i) == is_first_main_camera(b, i),
{
    assert forall|i: int| #[trigger] is_first_main_camera(a, i) == is_first_main_camera(b, i) by {
        if is_first_main_camera(a, i) {
            assert forall|j: int|
                0 <= j < i implies !(#[trigger] b.cameras@[j] matches Some(c2)
                && c2.is_main) by {
                assert(!(a.cameras@[j] matches Some(c) && c.is_main));
            }
            assert(is_first_main_camera(b, i));
        }
        if is_first_main_camera(b, i) {
            assert forall|j: int|
                0 <= j < i implies !(#[trigger] a.cameras@[j] matches Some(c) && c.is_main) by {
                assert(!(b.cameras@[j] matches Some(c2) && c2.is_main));
            }
            assert(is_first_main_camera(a, i));
        }
    }
}

/// Owns every entity: one growable table per component kind, all the
/// same length, a row per entity, plus the spatial map as a typed
/// singleton resource.
#[derive(Debug)]
pub struct World {
    pub render_ids: Vec<Option<crate::RenderId>>,
    pub transforms: Vec<Option<crate::Transform>>,
    pub cameras: Vec<Option<crate::Camera>>,
    pub render_datas: Vec<Option<crate::RenderData>>,
    pub clickables: Vec<Option<crate::Clickable>>,
    pub wires: Vec<Option<crate::Wire>>,
    pub wires_in: Vec<Option<crate::WireIn>>,
    pub wires_out: Vec<Option<crate::WireOut>>,
    pub map: SpatialMap,
}

impl World {
    /// The number of entities ever created.
    pub open spec fn len(&self) -> int {
        self.render_ids@.len() as int
    }

    /// All component tables cover the same entities.
    pub open spec fn tables_aligned(&self) -> bool {
        &&& self.transforms@.len() == self.len()
        &&& self.cameras@.len() == self.len()
        &&& self.render_datas@.len() == self.len()
        &&& self.clickables@.len() == self.len()
        &&& self.wires@.len() == self.len()
        &&& self.wires_in@.len() == self.len()
        &&& self.wires_out@.len() == self.len()
    }

    /// Every stored component is well-formed.
    pub open spec fn components_wf(&self) -> bool {
        &&& forall|i: int|
            0 <= i < self.len() ==> (#[trigger] self.transforms@[i] matches Some(t) ==> t.wf())
        &&& forall|i: int|
            0 <= i < self.len() ==> (#[trigger] self.cameras@[i] matches Some(c) ==> c.wf())
        &&& forall|i: int|
            0 <= i < self.len() ==> (#[trigger] self.render_datas@[i] matches Some(d) ==> d.wf())
        &&& forall|i: int|
            0 <= i < self.len() ==> (#[trigger] self.clickables@[i] matches Some(c) ==> c.wf())
        &&& forall|i: int|
            0 <= i < self.len() ==> (#[trigger] self.wires@[i] matches Some(w) ==> w.wf())
        &&& forall|i: int|
            0 <= i < self.len() ==> (#[trigger] self.wires_in@[i] matches Some(w) ==> w.wf())
        &&& forall|i: int|
            0 <= i < self.len() ==> (#[trigger] self.wires_out@[i] matches Some(w) ==> w.wf())
    }

    pub open spec fn wf(&self) -> bool {
        self.tables_aligned() && self.components_wf() && self.map.wf()
    }

    /// Some entity is the main camera.
    pub open spec fn has_main_camera(&self) -> bool {
        exists|i: int|
            0 <= i < self.len() && (#[trigger] self.cameras@[i] matches Some(c) && c.is_main)
    }

    /// Finds the lowest-numbered entity whose camera is flagged as
    /// the main one. That a main camera exists is a startup
    /// invariant of the world; a world without one is misconfigured.
    pub fn find_main_camera(&self) -> (r: usize)
        requires
            self.wf(),
            self.has_main_camera(),
        ensures
            is_first_main_camera(*self, r as int),
    {
        let n = self.cameras.len();
        let mut i: usize = 0;
        while i < n
            invariant
                i <= n,
                n == self.cameras@.len(),
                self.wf(),
                self.has_main_camera(),
                forall|j: int|
                    0 <= j < i ==> !(#[trigger] self.cameras@[j] matches Some(c) && c.is_main),
            decreases n - i,
        {
            match &self.cameras[i] {
                Some(c) => {
                    if c.is_main() {
                        return i;
                    }
                },
                None => {},
            }
            i = i + 1;
        }
        proof {
            assert(false);
        }
        0
    }

    pub fn new() -> (r: World)
        ensures
            r.wf(),
            r.len() == 0,
            r.map.pairs@.len() == 0,
    {
        World {
            render_ids: Vec::new(),
            transforms: Vec::new(),
            cameras: Vec::new(),
            render_datas: Vec::new(),
            clickables: Vec::new(),
            wires: Vec::new(),
            wires_in: Vec::new(),
            wires_out: Vec::new(),
            map: SpatialMap::new(),
        }
    }

    /// Creates a new entity, attaching the chosen component set in
    /// one atomic step; the handle it returns stays valid forever.
    pub fn create_now(&mut self, c: Components) -> (e: Entity)
        requires
            old(self).wf(),
            c.wf(),
            old(self).len() < usize::MAX,
        ensures
            e as int == old(self).len(),
            final(self).len() == old(self).len() + 1,
            final(self).render_ids@ == old(self).render_ids@.push(c.render_id),
            final(self).transforms@ == old(self).transforms@.push(c.transform),
            final(self).cameras@ == old(self).cameras@.push(c.camera),
            final(self).render_datas@ == old(self).render_datas@.push(c.render_data),
            final(self).clickables@ == old(self).clickables@.push(c.clickable),
            final(self).wires@ == old(self).wires@.push(c.wire),
            final(self).wires_in@ == old(self).wires_in@.push(c.wire_in),
            final(self).wires_out@ == old(self).wires_out@.push(c.wire_out),
            final(self).map == old(self).map,
            final(self).wf(),
    {
        let e = self.render_ids.len();
        self.render_ids.push(c.render_id);
        self.transforms.push(c.transform);
        self.cameras.push(c.camera);
        self.render_datas.push(c.render_data);
        self.clickables.push(c.clickable);
        self.wires.push(c.wire);
        self.wires_in.push(c.wire_in);
        self.wires_out.push(c.wire_out);
        e
    }

    pub fn num_entities(&self) -> (r: usize)
        ensures
            r as int == self.len(),
    {
        self.render_ids.len()
    }

    pub fn get_camera(&self, e: Entity) -> (r: Option<&crate::Camera>)
        ensures
            r is Some <==> (e < self.cameras@.len() && self.cameras@[e as int] is Some),
            r matches Some(c) ==> Some(*c) == self.cameras@[e as int],
    {
        if e < self.cameras.len() {
            self.cameras[e].as_ref()
        } else {
            None
        }
    }

    pub fn get_transform(&self, e: Entity) -> (r: Option<&crate::Transform>)
        ensures
            r is Some <==> (e < self.transforms@.len() && self.transforms@[e as int] is Some),
            r matches Some(c) ==> Some(*c) == self.transforms@[e as int],
    {
        if e < self.transforms.len() {
            self.transforms[e].as_ref()
        } else {
            None
        }
    }

    pub fn get_clickable(&self, e: Entity) -> (r: Option<&crate::Clickable>)
        ensures
            r is Some <==> (e < self.clickables@.len() && self.clickables@[e as int] is Some),
            r matches Some(c) ==> Some(*c) == self.clickables@[e as int],
    {
        if e < self.clickables.len() {
            self.clickables[e].as_ref()
        } else {
            None
        }
    }

    pub fn get_render_data(&self, e: Entity) -> (r: Option<&crate::RenderData>)
        ensures
            r is Some <==> (e < self.render_datas@.len() && self.render_datas@[e as int] is Some),
            r matches Some(c) ==> Some(*c) == self.render_datas@[e as int],
    {
        if e < self.render_datas.len() {
            self.render_datas[e].as_ref()
        } else {
            None
        }
    }

    pub fn get_wire(&self, e: Entity) -> (r: Option<&crate::Wire>)
        ensures
            r is Some <==> (e < self.wires@.len() && self.wires@[e as int] is Some),
            r matches Some(c) ==> Some(*c) == self.wires@[e as int],
    {
        if e < self.wires.len() {
            self.wires[e].as_ref()
        } else {
            None
        }
    }

    pub fn get_wire_in(&self, e: Entity) -> (r: Option<&crate::WireIn>)
        ensures
            r is Some <==> (e < self.wires_in@.len() && self.wires_in@[e as int] is Some),
            r matches Some(c) ==> Some(*c) == self.wires_in@[e as int],
    {
        if e < self.wires_in.len() {
            self.wires_in[e].as_ref()
        } else {
            None
        }
    }

    pub fn get_wire_out(&self, e: Entity) -> (r: Option<&crate::WireOut>)
        ensures
            r is Some <==> (e < self.wires_out@.len() && self.wires_out@[e as int] is Some),
            r matches Some(c) ==> Some(*c) == self.wires_out@[e as int],
    {
        if e < self.wires_out.len() {
            self.wires_out[e].as_ref()
        } else {
            None
        }
    }
}

} // verus!
