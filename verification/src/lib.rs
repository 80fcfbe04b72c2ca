use vstd::prelude::*;

pub mod art;
pub mod camera;
pub mod channel;
pub mod clickable;
pub mod control;
pub mod dirty;
pub mod event;
pub mod fixed;
pub mod game;
pub mod graphics;
pub mod link;
pub mod link_connector;
pub mod map;
pub mod mapper;
pub mod math;
pub mod ortho_helper;
pub mod render;
pub mod render_data;
pub mod render_id;
pub mod transform;
pub mod wire;
pub mod wire_flow;
pub mod wire_in;
pub mod wire_out;
pub mod world;

pub use camera::Component as Camera;
pub use clickable::Component as Clickable;
pub use control::System as Control;
pub use event::{DevEventHub, GameEventHub};
pub use fixed::SCALE;
pub use game::Game;
pub use graphics::{RendererType, Shaders};
pub use link::Link;
pub use link_connector::System as LinkConnector;
pub use map::SpatialMap;
pub use mapper::System as Mapper;
pub use ortho_helper::OrthographicHelper;
pub use render::System as Render;
pub use render_data::Component as RenderData;
pub use render_id::Component as RenderId;
pub use transform::Component as Transform;
pub use wire::Component as Wire;
pub use wire_flow::System as WireFlow;
pub use wire_in::Component as WireIn;
pub use wire_out::Component as WireOut;
pub use world::{Components, World};

verus! {

/// A stable entity handle: an index into the world's component
/// tables.
pub type Entity = usize;

} // verus!
