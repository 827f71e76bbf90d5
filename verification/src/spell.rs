//! The records of the catalog: spells and combos.

use crate::cost::{Cost, SpellCost};
use crate::deck::NEUTRAL_SPELL_ID;
use vstd::prelude::*;

verus! {

/// A spell of the catalog.
///
/// `icon` is the URI under which the spell's picture is known; nothing here
/// looks into it.  Spells with the identifier 0 are neutral: they belong to
/// every deck.
#[derive(Debug)]
pub struct Spell {
    pub name: String,
    pub icon: String,
    pub cost: SpellCost,
    pub spell_id: u16,
}

/// What a [`Spell`] holds, with its texts as sequences of characters.
pub struct SpellView {
    pub name: Seq<char>,
    pub icon: Seq<char>,
    pub cost: SpellCost,
    pub spell_id: u16,
}

impl View for Spell {
    type V = SpellView;

    open spec fn view(&self) -> SpellView {
        SpellView {
            name: self.name@,
            icon: self.icon@,
            cost: self.cost,
            spell_id: self.spell_id,
        }
    }
}

impl DeepView for Spell {
    type V = SpellView;

    open spec fn deep_view(&self) -> SpellView {
        self@
    }
}

/// The views of a list of spells, in the same order.
pub open spec fn spell_views(spells: Seq<Spell>) -> Seq<SpellView> {
    spells.map_values(|spell: Spell| spell@)
}

impl Spell {
    /// A spell with the given name, icon, cost and identifier.
    pub fn new(name: &str, icon: &str, cost: SpellCost, spell_id: u16) -> (spell: Spell)
        ensures
            spell@ == (SpellView { name: name@, icon: icon@, cost, spell_id }),
    {
        Spell { name: name.to_owned(), icon: icon.to_owned(), cost, spell_id }
    }
}

impl Default for Spell {
    /// A nameless neutral spell that costs nothing and shows the air icon.
    fn default() -> (spell: Spell)
        ensures
            spell@ == (SpellView {
                name: Seq::empty(),
                icon: "file://../assets/air_spell.png"@,
                cost: SpellCost { ap: Cost::FixedCost(0), mp: 0, wp: 0 },
                spell_id: NEUTRAL_SPELL_ID,
            }),
    {
        Spell {
            name: String::new(),
            icon: "file://../assets/air_spell.png".to_owned(),
            cost: SpellCost::default(),
            spell_id: NEUTRAL_SPELL_ID,
        }
    }
}

/// A combo of the catalog: the costs that its steps ask for, in order, and
/// what casting spells of those costs in a row brings about.
#[derive(Debug)]
pub struct SpellCombo {
    pub name: String,
    pub spell_chain: Vec<SpellCost>,
    pub effect: String,
}

/// What a [`SpellCombo`] holds, with its texts as sequences of characters.
pub struct SpellComboView {
    pub name: Seq<char>,
    pub spell_chain: Seq<SpellCost>,
    pub effect: Seq<char>,
}

impl View for SpellCombo {
    type V = SpellComboView;

    open spec fn view(&self) -> SpellComboView {
        SpellComboView {
            name: self.name@,
            spell_chain: self.spell_chain@,
            effect: self.effect@,
        }
    }
}

impl DeepView for SpellCombo {
    type V = SpellComboView;

    open spec fn deep_view(&self) -> SpellComboView {
        self@
    }
}

/// The views of a list of combos, in the same order.
pub open spec fn combo_views(combos: Seq<SpellCombo>) -> Seq<SpellComboView> {
    combos.map_values(|combo: SpellCombo| combo@)
}

impl SpellCombo {
    /// A combo with the given name, steps and effect.
    pub fn new(name: &str, spell_chain: Vec<SpellCost>, effect: &str) -> (combo: SpellCombo)
        ensures
            combo@ == (SpellComboView { name: name@, spell_chain: spell_chain@, effect: effect@ }),
    {
        SpellCombo { name: name.to_owned(), spell_chain, effect: effect.to_owned() }
    }
}

} // verus!
