//! Costs and spells written out as text.

use crate::cost::{Cost, SpellCost};
use crate::deck::{all_digits, decimal_value, spec_parse_spell_id};
use crate::spell::Spell;
use vstd::prelude::*;

verus! {

/// The character that writes the digit `d`.
pub open spec fn digit_char(d: nat) -> char
    recommends
        d < 10,
{
    if d == 0 {
        '0'
    } else if d == 1 {
        '1'
    } else if d == 2 {
        '2'
    } else if d == 3 {
        '3'
    } else if d == 4 {
        '4'
    } else if d == 5 {
        '5'
    } else if d == 6 {
        '6'
    } else if d == 7 {
        '7'
    } else if d == 8 {
        '8'
    } else {
        '9'
    }
}

/// `n` in base ten, without leading zeros.
pub open spec fn decimal_text(n: nat) -> Seq<char>
    decreases n,
{
    if n < 10 {
        seq![digit_char(n)]
    } else {
        decimal_text(n / 10).push(digit_char(n % 10))
    }
}

impl Cost {
    /// A fixed cost is written as its amount, a variable cost as its bounds
    /// with ` to ` between them.
    pub open spec fn text(self) -> Seq<char> {
        match self {
            Cost::FixedCost(amount) => decimal_text(amount as nat),
            Cost::VariableCost(min_amount, max_amount) => decimal_text(min_amount as nat)
                + " to "@ + decimal_text(max_amount as nat),
        }
    }

    /// Writes the cost.
    pub fn to_text(&self) -> (text: String)
        ensures
            text@ == self.text(),
    {
        let mut text = String::new();
        match *self {
            Cost::FixedCost(amount) => {
                append_decimal(&mut text, amount as u16);
            },
            Cost::VariableCost(min_amount, max_amount) => {
                append_decimal(&mut text, min_amount as u16);
                text.append(" to ");
                append_decimal(&mut text, max_amount as u16);
            },
        }
        text
    }
}

impl SpellCost {
    /// The three amounts in brackets: action points, movement points, wakfu
    /// points.
    pub open spec fn text(self) -> Seq<char> {
        "("@ + self.ap.text() + ", "@ + decimal_text(self.mp as nat) + ", "@ + decimal_text(
            self.wp as nat,
        ) + ")"@
    }

    /// Writes the cost.
    pub fn to_text(&self) -> (text: String)
        ensures
            text@ == self.text(),
    {
        let mut text = String::new();
        text.append("(");
        text.append(self.ap.to_text().as_str());
        text.append(", ");
        append_decimal(&mut text, self.mp as u16);
        text.append(", ");
        append_decimal(&mut text, self.wp as u16);
        text.append(")");
        text
    }
}

/// The text that egui's `Debug` formatting writes for an image source with
/// the URI `uri`.
pub uninterp spec fn icon_debug_text(uri: Seq<char>) -> Seq<char>;

/// A spell in brackets: its icon as already written out, its name, its cost
/// and its identifier.
pub open spec fn spell_text(
    icon_text: Seq<char>,
    name: Seq<char>,
    cost: SpellCost,
    spell_id: u16,
) -> Seq<char> {
    "("@ + icon_text + ", "@ + name + ", "@ + cost.text() + ", "@ + decimal_text(
        spell_id as nat,
    ) + ")"@
}

/// Writes a spell from its parts; `icon_text` is put down as it is.
pub fn write_spell(icon_text: &str, name: &str, cost: &SpellCost, spell_id: u16) -> (text: String)
    ensures
        text@ == spell_text(icon_text@, name@, *cost, spell_id),
{
    let mut text = String::new();
    text.append("(");
    text.append(icon_text);
    text.append(", ");
    text.append(name);
    text.append(", ");
    text.append(cost.to_text().as_str());
    text.append(", ");
    append_decimal(&mut text, spell_id);
    text.append(")");
    text
}

impl Spell {
    /// Writes the spell: the icon as egui writes an image source in `Debug`
    /// form, then name, cost and identifier.
    pub fn to_text(&self) -> (text: String)
        ensures
            text@ == spell_text(
                icon_debug_text(self.icon@),
                self.name@,
                self.cost,
                self.spell_id,
            ),
    {
        let icon_text = icon_debug(self.icon.as_str());
        write_spell(icon_text.as_str(), self.name.as_str(), &self.cost, self.spell_id)
    }
}

/// Formats `egui::ImageSource::Uri` of `uri` with `{:?}`, that is, calls
/// `<egui::ImageSource as Debug>::fmt`.  Not proved, and claimed of it: the
/// text that comes out is determined by the characters of `uri`.
#[verifier::external_body]
fn icon_debug(uri: &str) -> (text: String)
    ensures
        text@ == icon_debug_text(uri@),
{
    format!("{:?}", egui::ImageSource::Uri(std::borrow::Cow::Borrowed(uri)))
}

/// The text of one digit.
fn digit_text(d: u16) -> (text: &'static str)
    requires
        d < 10,
    ensures
        text@ == seq![digit_char(d as nat)],
{
    proof {
        reveal_strlit("0");
        reveal_strlit("1");
        reveal_strlit("2");
        reveal_strlit("3");
        reveal_strlit("4");
        reveal_strlit("5");
        reveal_strlit("6");
        reveal_strlit("7");
        reveal_strlit("8");
        reveal_strlit("9");
    }
    match d {
        0 => "0",
        1 => "1",
        2 => "2",
        3 => "3",
        4 => "4",
        5 => "5",
        6 => "6",
        7 => "7",
        8 => "8",
        _ => "9",
    }
}

/// Adds `n` in base ten at the end of `text`.
fn append_decimal(text: &mut String, n: u16)
    ensures
        final(text)@ == old(text)@ + decimal_text(n as nat),
    decreases n,
{
    if n >= 10 {
        append_decimal(text, n / 10);
    }
    text.append(digit_text(n % 10));
}

/// What a number's text is made of: at least one digit, only digits, and
/// together they are worth the number.
pub proof fn lemma_decimal_text_reads_back(n: nat)
    ensures
        decimal_text(n).len() >= 1,
        all_digits(decimal_text(n)),
        decimal_value(decimal_text(n)) == n,
    decreases n,
{
    if n < 10 {
        assert(decimal_value(decimal_text(n).drop_last()) == 0);
    } else {
        lemma_decimal_text_reads_back(n / 10);
        assert(decimal_text(n).drop_last() == decimal_text(n / 10));
    }
}

/// A spell identifier that is written out reads back as itself.
pub proof fn lemma_written_spell_id_reads_back(spell_id: u16)
    ensures
        spec_parse_spell_id(decimal_text(spell_id as nat)) == Some(spell_id),
{
    lemma_decimal_text_reads_back(spell_id as nat);
}

} // verus!
