//! A kitty-collecting game: kitties are created and bred with random DNA,
//! traded between accounts, armed with weaponry and sent to battle.
pub mod linked_list;
pub mod types;
pub mod hashing;
pub mod battle;
pub mod module;
pub mod unsigned;
pub mod laws;
