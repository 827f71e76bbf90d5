use wakfu_helper::cost::{Cost, SpellCost};
use wakfu_helper::iop::{get_iop_combos, get_iop_spells, iop_spells};
use wakfu_helper::spell::Spell;

fn cost(ap: Cost, mp: u8, wp: u8) -> SpellCost {
    SpellCost { ap, mp, wp }
}

#[test]
fn the_catalog_lists_seventeen_spells_in_order() {
    let spells = iop_spells();
    let expected: Vec<(&str, &str, SpellCost, u16)> = vec![
        ("Eventrail", "eventrail", cost(Cost::FixedCost(0), 1, 0), 0),
        ("Uppercut", "uppercut", cost(Cost::FixedCost(0), 0, 1), 0),
        ("Épée céleste", "epee_celeste", cost(Cost::FixedCost(2), 0, 0), 4778),
        ("Fulgur", "fulgur", cost(Cost::FixedCost(3), 0, 0), 4775),
        ("Super Iop Punch", "fire_spell", cost(Cost::FixedCost(4), 0, 0), 4777),
        ("Jugement", "jugement", cost(Cost::FixedCost(1), 0, 0), 4776),
        ("Colère de Iop", "fire_spell", cost(Cost::FixedCost(6), 0, 1), 4779),
        ("Ebranler", "ebranler", cost(Cost::FixedCost(2), 0, 0), 4780),
        ("Roknocerok", "rocknocerok", cost(Cost::FixedCost(4), 0, 0), 4781),
        ("Fendoir", "fendoir", cost(Cost::FixedCost(3), 0, 0), 4782),
        ("Charge", "charge", cost(Cost::VariableCost(1, 4), 0, 0), 4783),
        ("Ravage", "earth_spell", cost(Cost::FixedCost(5), 0, 0), 4784),
        ("Jabs", "jabs", cost(Cost::FixedCost(3), 0, 0), 4785),
        ("Rafale", "rafale", cost(Cost::FixedCost(1), 0, 0), 4786),
        ("Torgnole", "torgnole", cost(Cost::FixedCost(2), 0, 0), 4787),
        ("Tannée", "air_spell", cost(Cost::FixedCost(4), 0, 0), 4788),
        ("Epée de Iop", "air_spell", cost(Cost::FixedCost(3), 0, 0), 4789),
    ];
    assert_eq!(spells.len(), expected.len());
    for (spell, (name, picture, cost, spell_id)) in spells.iter().zip(expected) {
        assert_eq!(spell.name, name);
        assert_eq!(spell.icon, format!("bytes://../assets/{}.png", picture));
        assert_eq!(spell.cost, cost);
        assert_eq!(spell.spell_id, spell_id);
    }
}

#[test]
fn the_book_holds_the_catalog_whatever_the_deck() {
    let catalog = iop_spells();
    for deck_string in ["", "4778", "junk-"] {
        let book = get_iop_spells(deck_string);
        assert_eq!(book.spells().len(), catalog.len());
        for (held, listed) in book.spells().iter().zip(catalog.iter()) {
            assert_eq!(held.name, listed.name);
            assert_eq!(held.icon, listed.icon);
            assert_eq!(held.cost, listed.cost);
            assert_eq!(held.spell_id, listed.spell_id);
        }
    }
}

#[test]
fn the_book_holds_the_deck_of_its_deck_string() {
    assert_eq!(get_iop_spells("4775-4783-").deck(), &vec![0, 4775, 4783, 0]);
    assert_eq!(get_iop_spells("abc-4775").deck(), &vec![0, 0, 4775]);
}

#[test]
fn the_catalog_lists_five_combos_in_order() {
    let ap = |amount: u8| cost(Cost::FixedCost(amount), 0, 0);
    let mp = cost(Cost::FixedCost(0), 1, 0);
    let wp = cost(Cost::FixedCost(0), 0, 1);
    let expected: Vec<(&str, Vec<SpellCost>, &str)> = vec![
        ("Combo vol de vie", vec![mp, ap(3), ap(3)], "Vole 150% des dégats infligés"),
        ("Combo PA", vec![wp, ap(3), wp, ap(1)], "2 PA autour du Iop"),
        ("Combo poussé", vec![ap(1), ap(1), ap(2)], "Pousse de 2 cases"),
        ("Combo dégat", vec![ap(2), ap(1), mp], "Dégat bonus"),
        ("Combo préparation", vec![mp, mp, wp], "Préparation +20"),
    ];
    let combos = get_iop_combos();
    assert_eq!(combos.len(), expected.len());
    for (combo, (name, spell_chain, effect)) in combos.iter().zip(expected) {
        assert_eq!(combo.name, name);
        assert_eq!(combo.spell_chain, spell_chain);
        assert_eq!(combo.effect, effect);
    }
}

#[test]
fn the_default_spell_is_neutral_and_free() {
    let spell = Spell::default();
    assert_eq!(spell.name, "");
    assert_eq!(spell.icon, "file://../assets/air_spell.png");
    assert_eq!(spell.cost, cost(Cost::FixedCost(0), 0, 0));
    assert_eq!(spell.spell_id, 0);
}

#[test]
fn a_new_spell_holds_what_it_was_given() {
    let spell = Spell::new("Name", "icon", cost(Cost::VariableCost(1, 2), 3, 4), 5);
    assert_eq!(spell.name, "Name");
    assert_eq!(spell.icon, "icon");
    assert_eq!(spell.cost, cost(Cost::VariableCost(1, 2), 3, 4));
    assert_eq!(spell.spell_id, 5);
}
