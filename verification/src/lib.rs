//! Game-tree interfaces of a postflop poker solver: what the solver asks of a
//! game and of its nodes, with the promises that the solver relies on.

pub mod interface;

pub use interface::{Game, GameNode};
