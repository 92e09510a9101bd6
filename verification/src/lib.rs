//! The rules of Oogaxi, a flying-taxi game: the decisions that drive the
//! passengers, the pterodactyls, the menus and the score, with their
//! contracts proved by Verus. Geometry and rendering live with the engine.

pub mod states;
pub mod main_menu;
pub mod score;
pub mod animations;
pub mod game_rand;
pub mod taxi_registry;
pub mod passengers;
pub mod hazards;
pub mod spritesheet;
pub mod input;
pub mod assets;
pub mod meshes;
pub mod collision;
