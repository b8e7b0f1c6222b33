//! Laser propagation, tile activation and turn phases of a hex-grid puzzle
//! game, with the rules stated as contracts and proved. Beside them stand
//! the shop and the layout of the map, and the fighters and monsters of a
//! dungeon game.

pub mod actions;
pub mod amplifier;
pub mod cauldron;
pub mod encounter;
pub mod entity;
pub mod game_instance;
pub mod game_loop;
pub mod health;
pub mod hq;
pub mod laser_tower;
pub mod laser_visuals;
pub mod lasers;
pub mod map_generator;
pub mod merchandise;
pub mod monsters;
pub mod mountain;
pub mod popups;
pub mod reflector;
pub mod refractor;
pub mod resource_deposit;
pub mod rotater;
pub mod schedule;
pub mod shop;
pub mod text;
pub mod tilemap;
pub mod tiles;
pub mod timer;
pub mod world;
