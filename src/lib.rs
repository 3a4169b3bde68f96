//! A bounded voxel world with typed cells, the collision rules that keep
//! players on solid ground and out of walls, the dash timer of a player, and
//! the rules for placing and removing cells with the mouse.

pub mod collision;
pub mod colors;
pub mod edit;
pub mod grid;
pub mod input;
pub mod motion;

pub use collision::{check_voxel_collision, Footprint};
pub use colors::{generate_random_color, Color};
pub use edit::{EditAction, Face, Pick};
pub use grid::{get_voxel, set_voxel, Voxel, VoxelType, World};
pub use motion::DashState;
