//! Core of a turn-based grid-world exploration game: the world map, the
//! geometry it is measured with, the player and the creatures that live on
//! it, and the orchestrator that advances them one turn at a time.

pub mod animals;
pub mod entity;
pub mod game;
pub mod map;
pub mod player;
pub mod position;
pub mod render;
pub mod rng;
pub mod rpg;
