use std::borrow::Cow;

use wakfu_helper::cost::{Cost, SpellCost};
use wakfu_helper::deck::parse_spell_id;
use wakfu_helper::iop::iop_spells;
use wakfu_helper::spell::Spell;
use wakfu_helper::text::write_spell;

fn cost(ap: Cost, mp: u8, wp: u8) -> SpellCost {
    SpellCost { ap, mp, wp }
}

#[test]
fn fixed_cost_is_written_as_its_amount() {
    assert_eq!(Cost::FixedCost(0).to_text(), "0");
    assert_eq!(Cost::FixedCost(7).to_text(), "7");
    assert_eq!(Cost::FixedCost(10).to_text(), "10");
    assert_eq!(Cost::FixedCost(99).to_text(), "99");
    assert_eq!(Cost::FixedCost(100).to_text(), "100");
    assert_eq!(Cost::FixedCost(255).to_text(), "255");
}

#[test]
fn every_fixed_cost_is_written_in_base_ten() {
    for amount in 0..=255u8 {
        assert_eq!(Cost::FixedCost(amount).to_text(), format!("{}", amount));
    }
}

#[test]
fn variable_cost_is_written_as_its_bounds() {
    assert_eq!(Cost::VariableCost(1, 4).to_text(), "1 to 4");
    assert_eq!(Cost::VariableCost(0, 255).to_text(), "0 to 255");
    assert_eq!(Cost::VariableCost(20, 3).to_text(), "20 to 3");
}

#[test]
fn spell_cost_is_written_in_brackets() {
    assert_eq!(cost(Cost::FixedCost(3), 0, 0).to_text(), "(3, 0, 0)");
    assert_eq!(cost(Cost::VariableCost(1, 4), 0, 0).to_text(), "(1 to 4, 0, 0)");
    assert_eq!(cost(Cost::FixedCost(6), 10, 255).to_text(), "(6, 10, 255)");
    assert_eq!(SpellCost::default().to_text(), "(0, 0, 0)");
}

#[test]
fn spell_is_written_with_its_icon_quoted() {
    let spell = Spell::new(
        "Épée céleste",
        "bytes://../assets/epee_celeste.png",
        cost(Cost::FixedCost(2), 0, 0),
        4778,
    );
    assert_eq!(
        spell.to_text(),
        "(\"bytes://../assets/epee_celeste.png\", Épée céleste, (2, 0, 0), 4778)"
    );
}

#[test]
fn default_spell_is_written_with_an_empty_name() {
    assert_eq!(
        Spell::default().to_text(),
        "(\"file://../assets/air_spell.png\", , (0, 0, 0), 0)"
    );
}

#[test]
fn icon_is_escaped_as_in_debug_form() {
    let spell = Spell::new("Odd", "a \"b\" \\ c\n", cost(Cost::FixedCost(1), 0, 0), 65535);
    assert_eq!(spell.to_text(), "(\"a \\\"b\\\" \\\\ c\\n\", Odd, (1, 0, 0), 65535)");
}

#[test]
fn spells_are_written_as_their_parts_would_be_formatted() {
    for spell in iop_spells() {
        let icon = egui::ImageSource::Uri(Cow::Borrowed(spell.icon.as_str()));
        let expected = format!(
            "({:?}, {}, {}, {})",
            icon,
            spell.name,
            spell.cost.to_text(),
            spell.spell_id
        );
        assert_eq!(spell.to_text(), expected);
    }
}

#[test]
fn write_spell_puts_the_icon_text_down_unchanged() {
    let text = write_spell("<icon>", "Name", &cost(Cost::VariableCost(1, 4), 2, 3), 10000);
    assert_eq!(text, "(<icon>, Name, (1 to 4, 2, 3), 10000)");
    let text = write_spell("", "", &SpellCost::default(), 0);
    assert_eq!(text, "(, , (0, 0, 0), 0)");
}

#[test]
fn written_identifiers_read_back() {
    for spell_id in [0u16, 9, 10, 99, 100, 999, 1000, 4778, 9999, 10000, 65535] {
        let spell = Spell::new("", "", SpellCost::default(), spell_id);
        let text = spell.to_text();
        let written = text.rsplit(", ").next().unwrap().trim_end_matches(')');
        assert_eq!(written, format!("{}", spell_id));
        assert_eq!(parse_spell_id(written), Some(spell_id));
    }
}
