//! A verified movement-and-world-placement model for a small 2D game.
//!
//! An actor moves on a plane under keyboard input, is confined to the
//! viewport's bounds, and can plant immovable world objects at its current
//! position.  All coordinates are integers in milliunits (thousandths of a
//! world unit), and elapsed time is in whole milliseconds, so every rule is
//! exact integer arithmetic.

pub mod geometry;
pub mod input;
pub mod locomotion;
pub mod placement;
pub mod world;

pub use geometry::Position;
pub use geometry::Viewport;
pub use input::InputSnapshot;
pub use locomotion::Player;
pub use placement::Tree;
pub use world::World;
