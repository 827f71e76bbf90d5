//! Cost-pattern matching and deck-filtered combo lookup for Iop spell decks.

pub mod book;
pub mod cost;
pub mod deck;
pub mod iop;
pub mod spell;
pub mod text;

pub use book::SpellBook;
pub use cost::{Cost, SpellCost};
pub use iop::{get_iop_combos, get_iop_spells};
pub use spell::{Spell, SpellCombo};
