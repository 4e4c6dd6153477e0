//! A turn-based battle between a player character and a monster.
//!
//! `character` holds the character record and the operations that change its
//! health; `dice` draws the random numbers that creation and attacks need;
//! `battle` resolves one turn at a time and decides when the fight is over.
//! Everything that reads from or writes to the console lives outside this crate.

pub mod dice;
pub mod character;
pub mod battle;
pub mod selection;
