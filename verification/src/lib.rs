//! A terminal arcade game's world model and tick rules, with every rule
//! stated as a contract and proved.
//!
//! Moving entities live on real coordinates, held as thousandths of a cell;
//! walls, the collectible and everything drawn live on whole cells.

pub mod point;
pub mod random;
pub mod text;
pub mod traits;
pub mod ui;
pub mod unit;
pub mod world;
pub mod engine;
pub mod game;
pub mod hud;
pub mod input;
