//! A minimal terminal-UI runtime: a session controller that decides which
//! terminal primitives a frame needs, registries of drawable objects, and a
//! decoder from raw key events to semantic input.
//!
//! The library performs no terminal I/O itself. Every operation that touches
//! the terminal is expressed as data (`driver::DriverOp`, `objects::DrawPlan`)
//! that the embedding program hands to its terminal driver.

pub mod app;
pub mod cursor;
pub mod driver;
pub mod errors;
pub mod input;
pub mod nyan_obj;
pub mod nyanobj;
pub mod nyanterm;
pub mod objects;
pub mod text;
