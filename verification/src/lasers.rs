//! Beams on the hex board: directions, positions, the effects a tile can
//! have on a beam, and the tracer that walks a beam through them.

pub mod beam;
pub mod capability;
pub mod direction;
pub mod position;
pub mod tracer;

pub use capability::{
    Amplification, Collider, Consumption, DirectionSet, Reflection, Refraction, Rotation,
    YReflection,
};
pub use direction::Direction;
pub use position::{HexCoordinate, Position};
