use vstd::prelude::*;

verus! {

/// A pair of shader programs as raw bytes, ready to hand to the
/// renderer; reading them off disk is the embedder's business.
#[derive(Debug)]
pub struct Shaders {
    pub vertex: Vec<u8>,
    pub fragment: Vec<u8>,
}

impl Shaders {
    pub fn new(vertex: Vec<u8>, fragment: Vec<u8>) -> (r: Shaders)
        ensures
            r.vertex@ == vertex@,
            r.fragment@ == fragment@,
    {
        Shaders { vertex, fragment }
    }

    pub fn get_vertex_shader(&self) -> (r: &[u8])
        ensures
            r@ == self.vertex@,
    {
        self.vertex.as_slice()
    }

    pub fn get_fragment_shader(&self) -> (r: &[u8])
        ensures
            r@ == self.fragment@,
    {
        self.fragment.as_slice()
    }
}

/// The kind of renderer a drawable registers with; only the
/// spritesheet pipeline exists.
#[derive(Debug, Clone, Copy, PartialEq, Eq, Structural, Hash)]
pub enum RendererType {
    Spritesheet,
}

} // verus!
