//! The catalog of the Iop class: its spells and its combos.

use crate::book::SpellBook;
use crate::cost::{Cost, SpellCost};
use crate::deck::{deck_of, NEUTRAL_SPELL_ID};
use crate::spell::{combo_views, spell_views, Spell, SpellCombo, SpellComboView, SpellView};
use vstd::prelude::*;

verus! {

/// The URI of an icon: `bytes://` and the path of the picture, which is in
/// the assets directory.
pub open spec fn icon_uri(picture: Seq<char>) -> Seq<char> {
    "bytes://../assets/"@ + picture
}

/// One line of the table of spells: name, picture, the three costs and the
/// identifier.
pub open spec fn entry(
    name: Seq<char>,
    picture: Seq<char>,
    ap: Cost,
    mp: u8,
    wp: u8,
    spell_id: u16,
) -> SpellView {
    SpellView { name, icon: icon_uri(picture), cost: SpellCost { ap, mp, wp }, spell_id }
}

/// The spells of the Iop class, in catalog order.
pub open spec fn iop_spell_table() -> Seq<SpellView> {
    seq![
        // Neutral spells
        entry("Eventrail"@, "eventrail.png"@, Cost::FixedCost(0), 1, 0, 0),
        entry("Uppercut"@, "uppercut.png"@, Cost::FixedCost(0), 0, 1, 0),
        // Fire spells
        entry("Épée céleste"@, "epee_celeste.png"@, Cost::FixedCost(2), 0, 0, 4778),
        entry("Fulgur"@, "fulgur.png"@, Cost::FixedCost(3), 0, 0, 4775),
        entry("Super Iop Punch"@, "fire_spell.png"@, Cost::FixedCost(4), 0, 0, 4777),
        entry("Jugement"@, "jugement.png"@, Cost::FixedCost(1), 0, 0, 4776),
        entry("Colère de Iop"@, "fire_spell.png"@, Cost::FixedCost(6), 0, 1, 4779),
        // Earth spells
        entry("Ebranler"@, "ebranler.png"@, Cost::FixedCost(2), 0, 0, 4780),
        entry("Roknocerok"@, "rocknocerok.png"@, Cost::FixedCost(4), 0, 0, 4781),
        entry("Fendoir"@, "fendoir.png"@, Cost::FixedCost(3), 0, 0, 4782),
        entry("Charge"@, "charge.png"@, Cost::VariableCost(1, 4), 0, 0, 4783),
        entry("Ravage"@, "earth_spell.png"@, Cost::FixedCost(5), 0, 0, 4784),
        // Air spells
        entry("Jabs"@, "jabs.png"@, Cost::FixedCost(3), 0, 0, 4785),
        entry("Rafale"@, "rafale.png"@, Cost::FixedCost(1), 0, 0, 4786),
        entry("Torgnole"@, "torgnole.png"@, Cost::FixedCost(2), 0, 0, 4787),
        entry("Tannée"@, "air_spell.png"@, Cost::FixedCost(4), 0, 0, 4788),
        entry("Epée de Iop"@, "air_spell.png"@, Cost::FixedCost(3), 0, 0, 4789),
    ]
}

/// A step that costs `ap` action points and nothing else.
pub open spec fn ap_step(ap: u8) -> SpellCost {
    SpellCost { ap: Cost::FixedCost(ap), mp: 0, wp: 0 }
}

/// A step that costs one movement point and nothing else.
pub open spec fn mp_step() -> SpellCost {
    SpellCost { ap: Cost::FixedCost(0), mp: 1, wp: 0 }
}

/// A step that costs one wakfu point and nothing else.
pub open spec fn wp_step() -> SpellCost {
    SpellCost { ap: Cost::FixedCost(0), mp: 0, wp: 1 }
}

/// The combos of the Iop class, in catalog order.
pub open spec fn iop_combo_table() -> Seq<SpellComboView> {
    seq![
        SpellComboView {
            name: "Combo vol de vie"@,
            spell_chain: seq![mp_step(), ap_step(3), ap_step(3)],
            effect: "Vole 150% des dégats infligés"@,
        },
        SpellComboView {
            name: "Combo PA"@,
            spell_chain: seq![wp_step(), ap_step(3), wp_step(), ap_step(1)],
            effect: "2 PA autour du Iop"@,
        },
        SpellComboView {
            name: "Combo poussé"@,
            spell_chain: seq![ap_step(1), ap_step(1), ap_step(2)],
            effect: "Pousse de 2 cases"@,
        },
        SpellComboView {
            name: "Combo dégat"@,
            spell_chain: seq![ap_step(2), ap_step(1), mp_step()],
            effect: "Dégat bonus"@,
        },
        SpellComboView {
            name: "Combo préparation"@,
            spell_chain: seq![mp_step(), mp_step(), wp_step()],
            effect: "Préparation +20"@,
        },
    ]
}

/// Adds one line of the table at the end of `spells`.
fn push_spell(
    spells: &mut Vec<Spell>,
    name: &str,
    picture: &str,
    ap: Cost,
    mp: u8,
    wp: u8,
    spell_id: u16,
)
    ensures
        spell_views(final(spells)@) == spell_views(old(spells)@).push(
            entry(name@, picture@, ap, mp, wp, spell_id),
        ),
{
    let icon = String::from_str("bytes://../assets/").concat(picture);
    let spell = Spell::new(name, icon.as_str(), SpellCost { ap, mp, wp }, spell_id);
    spells.push(spell);
}

/// The spells of the Iop class, in catalog order.
pub fn iop_spells() -> (spells: Vec<Spell>)
    ensures
        spell_views(spells@) == iop_spell_table(),
{
    let mut spells: Vec<Spell> = Vec::new();
    // Neutral spells
    push_spell(&mut spells, "Eventrail", "eventrail.png", Cost::FixedCost(0), 1, 0, 0);
    push_spell(&mut spells, "Uppercut", "uppercut.png", Cost::FixedCost(0), 0, 1, 0);
    // Fire spells
    push_spell(&mut spells, "Épée céleste", "epee_celeste.png", Cost::FixedCost(2), 0, 0, 4778);
    push_spell(&mut spells, "Fulgur", "fulgur.png", Cost::FixedCost(3), 0, 0, 4775);
    push_spell(&mut spells, "Super Iop Punch", "fire_spell.png", Cost::FixedCost(4), 0, 0, 4777);
    push_spell(&mut spells, "Jugement", "jugement.png", Cost::FixedCost(1), 0, 0, 4776);
    push_spell(&mut spells, "Colère de Iop", "fire_spell.png", Cost::FixedCost(6), 0, 1, 4779);
    // Earth spells
    push_spell(&mut spells, "Ebranler", "ebranler.png", Cost::FixedCost(2), 0, 0, 4780);
    push_spell(&mut spells, "Roknocerok", "rocknocerok.png", Cost::FixedCost(4), 0, 0, 4781);
    push_spell(&mut spells, "Fendoir", "fendoir.png", Cost::FixedCost(3), 0, 0, 4782);
    push_spell(&mut spells, "Charge", "charge.png", Cost::VariableCost(1, 4), 0, 0, 4783);
    push_spell(&mut spells, "Ravage", "earth_spell.png", Cost::FixedCost(5), 0, 0, 4784);
    // Air spells
    push_spell(&mut spells, "Jabs", "jabs.png", Cost::FixedCost(3), 0, 0, 4785);
    push_spell(&mut spells, "Rafale", "rafale.png", Cost::FixedCost(1), 0, 0, 4786);
    push_spell(&mut spells, "Torgnole", "torgnole.png", Cost::FixedCost(2), 0, 0, 4787);
    push_spell(&mut spells, "Tannée", "air_spell.png", Cost::FixedCost(4), 0, 0, 4788);
    push_spell(&mut spells, "Epée de Iop", "air_spell.png", Cost::FixedCost(3), 0, 0, 4789);
    spells
}

/// The spell book of the Iop class with the deck that `deck_string` stands
/// for.
pub fn get_iop_spells(deck_string: &str) -> (spell_book: SpellBook)
    ensures
        spell_views(spell_book@.spells) == iop_spell_table(),
        spell_book@.deck == deck_of(deck_string@),
{
    SpellBook::new(iop_spells(), deck_string)
}

/// The combos of the Iop class, in catalog order.
pub fn get_iop_combos() -> (combos: Vec<SpellCombo>)
    ensures
        combo_views(combos@) == iop_combo_table(),
{
    let spell_cost_1_ap = SpellCost { ap: Cost::FixedCost(1), ..SpellCost::default() };
    let spell_cost_2_ap = SpellCost { ap: Cost::FixedCost(2), ..SpellCost::default() };
    let spell_cost_3_ap = SpellCost { ap: Cost::FixedCost(3), ..SpellCost::default() };
    let spell_cost_1_mp = SpellCost { mp: 1, ..SpellCost::default() };
    let spell_cost_1_wp = SpellCost { wp: 1, ..SpellCost::default() };

    vec![
        SpellCombo::new(
            "Combo vol de vie",
            vec![spell_cost_1_mp, spell_cost_3_ap, spell_cost_3_ap],
            "Vole 150% des dégats infligés",
        ),
        SpellCombo::new(
            "Combo PA",
            vec![spell_cost_1_wp, spell_cost_3_ap, spell_cost_1_wp, spell_cost_1_ap],
            "2 PA autour du Iop",
        ),
        SpellCombo::new(
            "Combo poussé",
            vec![spell_cost_1_ap, spell_cost_1_ap, spell_cost_2_ap],
            "Pousse de 2 cases",
        ),
        SpellCombo::new(
            "Combo dégat",
            vec![spell_cost_2_ap, spell_cost_1_ap, spell_cost_1_mp],
            "Dégat bonus",
        ),
        SpellCombo::new(
            "Combo préparation",
            vec![spell_cost_1_mp, spell_cost_1_mp, spell_cost_1_wp],
            "Préparation +20",
        ),
    ]
}

/// The table has seventeen spells, and apart from the neutral spells no two
/// of them share an identifier.
pub proof fn lemma_iop_spell_ids_are_distinct(i: int, j: int)
    requires
        0 <= i < j < iop_spell_table().len(),
        iop_spell_table()[i].spell_id == iop_spell_table()[j].spell_id,
    ensures
        iop_spell_table().len() == 17,
        iop_spell_table()[i].spell_id == NEUTRAL_SPELL_ID,
{
}

} // verus!
