//! A spell book pairs the catalog of spells with the deck that is active,
//! and answers which spells of the deck can fill a step of a combo.

use crate::cost::SpellCost;
use crate::deck::{deck_of, parse_deck, NEUTRAL_SPELL_ID};
use crate::spell::{Spell, SpellCombo};
use vstd::prelude::*;

verus! {

/// The catalog of spells together with the active deck.
///
/// The deck is a list of spell identifiers; it may name an identifier more
/// than once, and it always names the neutral identifier.
pub struct SpellBook {
    spells: Vec<Spell>,
    deck: Vec<u16>,
}

/// What a [`SpellBook`] holds: the spells in catalog order, and the deck.
pub struct SpellBookView {
    pub spells: Seq<Spell>,
    pub deck: Seq<u16>,
}

/// Whether `spell` is in `deck` and can fill a step that asks for `pattern`.
pub open spec fn is_candidate(deck: Seq<u16>, pattern: SpellCost, spell: Spell) -> bool {
    deck.contains(spell.spell_id) && spell.cost.spec_match_pattern(pattern)
}

/// [`is_candidate`] as a predicate on spells.
pub open spec fn candidate_of(deck: Seq<u16>, pattern: SpellCost) -> spec_fn(Spell) -> bool {
    |spell: Spell| is_candidate(deck, pattern, spell)
}

/// The spells that a list of references points to.
pub open spec fn spells_of(spells: Seq<&Spell>) -> Seq<Spell> {
    spells.map_values(|spell: &Spell| *spell)
}

impl SpellBookView {
    /// The spells of the deck that can fill a step asking for `pattern`: all
    /// of them, each once, in catalog order.
    pub open spec fn matching(self, pattern: SpellCost) -> Seq<Spell> {
        self.spells.filter(candidate_of(self.deck, pattern))
    }
}

impl View for SpellBook {
    type V = SpellBookView;

    closed spec fn view(&self) -> SpellBookView {
        SpellBookView { spells: self.spells@, deck: self.deck@ }
    }
}

impl SpellBook {
    #[verifier::type_invariant]
    spec fn deck_names_neutral(self) -> bool {
        self.deck@.len() > 0 && self.deck@[0] == NEUTRAL_SPELL_ID
    }

    /// The book of the catalog `spells` with the deck that `deck_string`
    /// stands for.
    pub fn new(spells: Vec<Spell>, deck_string: &str) -> (book: SpellBook)
        ensures
            book@.spells == spells@,
            book@.deck == deck_of(deck_string@),
    {
        let deck = parse_deck(deck_string);
        SpellBook { spells, deck }
    }

    /// The catalog.
    pub fn spells(&self) -> (spells: &Vec<Spell>)
        ensures
            spells@ == self@.spells,
    {
        &self.spells
    }

    /// The deck.
    pub fn deck(&self) -> (deck: &Vec<u16>)
        ensures
            deck@ == self@.deck,
            deck@.contains(NEUTRAL_SPELL_ID),
    {
        proof {
            use_type_invariant(self);
        }
        &self.deck
    }

    /// Whether the deck names `spell_id`.
    pub fn in_deck(&self, spell_id: u16) -> (result: bool)
        ensures
            result == self@.deck.contains(spell_id),
            spell_id == NEUTRAL_SPELL_ID ==> result,
    {
        proof {
            use_type_invariant(self);
        }
        let mut i: usize = 0;
        while i < self.deck.len()
            invariant
                i <= self.deck.len(),
                forall|j: int| 0 <= j < i ==> self.deck@[j] != spell_id,
            decreases self.deck.len() - i,
        {
            if self.deck[i] == spell_id {
                return true;
            }
            i = i + 1;
        }
        false
    }

    /// The spells of the deck that can fill a step asking for `cost`, in
    /// catalog order.
    pub fn get_matching_spell(&self, cost: &SpellCost) -> (matching_spells: Vec<&Spell>)
        ensures
            spells_of(matching_spells@) == self@.matching(*cost),
    {
        let mut matching_spells: Vec<&Spell> = Vec::new();
        let ghost candidate = candidate_of(self.deck@, *cost);
        let mut i: usize = 0;
        while i < self.spells.len()
            invariant
                i <= self.spells.len(),
                candidate == candidate_of(self.deck@, *cost),
                spells_of(matching_spells@) == self.spells@.take(i as int).filter(candidate),
            decreases self.spells.len() - i,
        {
            let spell = &self.spells[i];
            proof {
                let seen = self.spells@.take(i as int);
                assert(self.spells@.take(i + 1) == seen.push(*spell));
                Seq::lemma_filter_push(seen, *spell, candidate);
            }
            if self.in_deck(spell.spell_id) && spell.cost.match_pattern(cost) {
                matching_spells.push(spell);
            }
            i = i + 1;
        }
        assert(self.spells@.take(i as int) == self.spells@);
        matching_spells
    }

    /// For each step of `combo`, in order, the spells of the deck that can
    /// fill it.
    pub fn resolve_combo(&self, combo: &SpellCombo) -> (steps: Vec<Vec<&Spell>>)
        ensures
            steps@.len() == combo@.spell_chain.len(),
            forall|i: int|
                0 <= i < steps@.len() ==> spells_of(#[trigger] steps@[i]@) == self@.matching(
                    combo@.spell_chain[i],
                ),
    {
        let mut steps: Vec<Vec<&Spell>> = Vec::new();
        let mut i: usize = 0;
        while i < combo.spell_chain.len()
            invariant
                i <= combo.spell_chain.len(),
                steps@.len() == i,
                forall|j: int|
                    0 <= j < i ==> spells_of(#[trigger] steps@[j]@) == self@.matching(
                        combo.spell_chain@[j],
                    ),
            decreases combo.spell_chain.len() - i,
        {
            let matching_spells = self.get_matching_spell(&combo.spell_chain[i]);
            steps.push(matching_spells);
            i = i + 1;
        }
        steps
    }
}

/// Asking a book twice for the same cost gives the same spells in the same
/// order: the answer is determined by the catalog, the deck and the cost.
pub proof fn lemma_matching_is_repeatable(
    book: SpellBookView,
    pattern: SpellCost,
    first: Seq<&Spell>,
    second: Seq<&Spell>,
)
    requires
        spells_of(first) == book.matching(pattern),
        spells_of(second) == book.matching(pattern),
    ensures
        first == second,
{
    assert(first.len() == spells_of(first).len());
    assert(second.len() == spells_of(second).len());
    assert forall|i: int| 0 <= i < first.len() implies first[i] == second[i] by {
        assert(spells_of(first)[i] == *first[i]);
        assert(spells_of(second)[i] == *second[i]);
    }
}

/// Every spell in an answer is a spell of the catalog that the deck names
/// and whose cost fills the step.
pub proof fn lemma_matching_is_sound(book: SpellBookView, pattern: SpellCost, spell: Spell)
    requires
        book.matching(pattern).contains(spell),
    ensures
        book.spells.contains(spell),
        book.deck.contains(spell.spell_id),
        spell.cost.spec_match_pattern(pattern),
{
    let candidate = candidate_of(book.deck, pattern);
    book.spells.lemma_filter_contains_rev(candidate, spell);
}

/// Every spell of the catalog that the deck names and whose cost fills the
/// step is in the answer.
pub proof fn lemma_matching_is_complete(book: SpellBookView, pattern: SpellCost, i: int)
    requires
        0 <= i < book.spells.len(),
        book.deck.contains(book.spells[i].spell_id),
        book.spells[i].cost.spec_match_pattern(pattern),
    ensures
        book.matching(pattern).contains(book.spells[i]),
{
    let candidate = candidate_of(book.deck, pattern);
    book.spells.lemma_filter_contains(candidate, i);
}

/// A neutral spell whose cost fills the step is in the answer of every book
/// whose deck names the neutral identifier, whatever else the deck names.
pub proof fn lemma_neutral_spells_are_offered(book: SpellBookView, pattern: SpellCost, i: int)
    requires
        book.deck.contains(NEUTRAL_SPELL_ID),
        0 <= i < book.spells.len(),
        book.spells[i].spell_id == NEUTRAL_SPELL_ID,
        book.spells[i].cost.spec_match_pattern(pattern),
    ensures
        book.matching(pattern).contains(book.spells[i]),
{
    lemma_matching_is_complete(book, pattern, i);
}

/// `positions` are places in a list of `len` items, each further on than
/// the one before.
pub open spec fn ascending_positions(positions: Seq<int>, len: nat) -> bool {
    &&& forall|k: int| 0 <= k < positions.len() ==> 0 <= #[trigger] positions[k] < len
    &&& forall|j: int, k: int|
        0 <= j < k < positions.len() ==> #[trigger] positions[j] < #[trigger] positions[k]
}

/// An answer lists its spells in catalog order: they sit at places of the
/// catalog that go strictly upwards.
pub proof fn lemma_matching_keeps_catalog_order(
    book: SpellBookView,
    pattern: SpellCost,
) -> (positions: Seq<int>)
    ensures
        positions.len() == book.matching(pattern).len(),
        ascending_positions(positions, book.spells.len()),
        forall|k: int|
            0 <= k < positions.len() ==> book.matching(pattern)[k]
                == book.spells[#[trigger] positions[k]],
    decreases book.spells.len(),
{
    reveal(Seq::filter);
    let candidate = candidate_of(book.deck, pattern);
    if book.spells.len() == 0 {
        Seq::empty()
    } else {
        let shorter = SpellBookView { spells: book.spells.drop_last(), deck: book.deck };
        let positions = lemma_matching_keeps_catalog_order(shorter, pattern);
        if candidate(book.spells.last()) {
            positions.push(book.spells.len() - 1)
        } else {
            positions
        }
    }
}

/// The answer depends on which identifiers the deck names, not on their
/// order nor on how often each is named.
pub proof fn lemma_matching_reads_deck_as_set(
    spells: Seq<Spell>,
    deck: Seq<u16>,
    other_deck: Seq<u16>,
    pattern: SpellCost,
)
    requires
        deck.to_set() == other_deck.to_set(),
    ensures
        (SpellBookView { spells, deck }).matching(pattern) == (SpellBookView {
            spells,
            deck: other_deck,
        }).matching(pattern),
{
    assert forall|spell: Spell|
        is_candidate(deck, pattern, spell) == is_candidate(other_deck, pattern, spell) by {
        assert(deck.contains(spell.spell_id) == deck.to_set().contains(spell.spell_id));
        assert(other_deck.contains(spell.spell_id) == other_deck.to_set().contains(
            spell.spell_id,
        ));
    }
    assert(candidate_of(deck, pattern) =~= candidate_of(other_deck, pattern));
}

} // verus!
