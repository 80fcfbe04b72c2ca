pub mod empty;
pub mod layers;
pub mod wires;
