//! Resource costs and the rule that decides whether a spell's cost satisfies
//! the cost that a combo step asks for.

use vstd::prelude::*;

verus! {

/// A requirement on one resource axis.
///
/// `FixedCost(n)` stands for exactly `n` units, `VariableCost(min, max)` for
/// any amount from `min` to `max`, both included.  A variable cost is meant to
/// have `min <= max`; nothing enforces it, and the comparison below is defined
/// for inverted bounds as well.
#[derive(Clone, Copy, Debug, PartialEq, Eq, Structural)]
pub enum Cost {
    FixedCost(u8),
    VariableCost(u8, u8),
}

impl Cost {
    /// The bounds of a variable cost are in order; a fixed cost always is.
    pub open spec fn well_formed(self) -> bool {
        match self {
            Cost::FixedCost(_) => true,
            Cost::VariableCost(min, max) => min <= max,
        }
    }

    /// The smallest amount that the cost admits (its first bound).
    pub open spec fn low(self) -> int {
        match self {
            Cost::FixedCost(n) => n as int,
            Cost::VariableCost(min, _) => min as int,
        }
    }

    /// The largest amount that the cost admits (its second bound).
    pub open spec fn high(self) -> int {
        match self {
            Cost::FixedCost(n) => n as int,
            Cost::VariableCost(_, max) => max as int,
        }
    }

    /// Some amount is admitted by both costs: the closed intervals intersect.
    pub open spec fn intersects(self, other: Cost) -> bool {
        self.low() <= other.high() && other.low() <= self.high()
    }

    /// The comparison rule between a cost and a pattern.
    ///
    /// Two fixed costs match when they are equal; a fixed cost matches a
    /// variable one when it lies within its bounds, whichever side it is on.
    /// Two variable costs match when the first one's upper bound reaches the
    /// second one's lower bound *or* the first one's lower bound stays under
    /// the second one's upper bound.  That last rule is weaker than an
    /// intersection test: see [`lemma_ordered_ranges_always_match`].
    pub open spec fn spec_matches(self, pattern: Cost) -> bool {
        match (self, pattern) {
            (Cost::FixedCost(a), Cost::FixedCost(b)) => a == b,
            (Cost::FixedCost(a), Cost::VariableCost(lo, hi)) => lo <= a <= hi,
            (Cost::VariableCost(lo, hi), Cost::FixedCost(b)) => lo <= b <= hi,
            (Cost::VariableCost(lo1, hi1), Cost::VariableCost(lo2, hi2)) => {
                hi1 >= lo2 || lo1 <= hi2
            },
        }
    }

    /// Decides whether `self` is compatible with `pattern`.
    pub fn matches(&self, pattern: &Cost) -> (result: bool)
        ensures
            result == self.spec_matches(*pattern),
    {
        match *self {
            Cost::FixedCost(amount) => match *pattern {
                Cost::FixedCost(pattern_amount) => amount == pattern_amount,
                Cost::VariableCost(pattern_min, pattern_max) => {
                    pattern_min <= amount && amount <= pattern_max
                },
            },
            Cost::VariableCost(min, max) => match *pattern {
                Cost::FixedCost(pattern_amount) => min <= pattern_amount && pattern_amount <= max,
                Cost::VariableCost(pattern_min, pattern_max) => {
                    max >= pattern_min || min <= pattern_max
                },
            },
        }
    }
}

impl Default for Cost {
    fn default() -> (result: Cost)
        ensures
            result == Cost::FixedCost(0),
    {
        Cost::FixedCost(0)
    }
}

/// The full cost of a spell, or the cost that a combo step asks for: action
/// points, which may be fixed or variable, and fixed amounts of movement
/// points and wakfu points.
#[derive(Clone, Copy, Debug, PartialEq, Eq, Structural)]
pub struct SpellCost {
    pub ap: Cost,
    pub mp: u8,
    pub wp: u8,
}

impl SpellCost {
    /// When a spell of cost `self` can fill a step that asks for `pattern`:
    /// movement and wakfu points are equal, and the step's action points,
    /// taken first, match the spell's.
    pub open spec fn spec_match_pattern(self, pattern: SpellCost) -> bool {
        &&& self.wp == pattern.wp
        &&& self.mp == pattern.mp
        &&& pattern.ap.spec_matches(self.ap)
    }

    /// Decides whether a spell of cost `self` can fill a step that asks for
    /// `cost_pattern`.
    pub fn match_pattern(&self, cost_pattern: &SpellCost) -> (result: bool)
        ensures
            result == self.spec_match_pattern(*cost_pattern),
    {
        if self.wp != cost_pattern.wp {
            return false;
        }
        if self.mp != cost_pattern.mp {
            return false;
        }
        cost_pattern.ap.matches(&self.ap)
    }
}

impl Default for SpellCost {
    fn default() -> (result: SpellCost)
        ensures
            result == (SpellCost { ap: Cost::FixedCost(0), mp: 0, wp: 0 }),
    {
        SpellCost { ap: Cost::FixedCost(0), mp: 0, wp: 0 }
    }
}

/// Two fixed costs match exactly when they are the same amount.
pub proof fn lemma_fixed_matches_fixed(a: u8, b: u8)
    ensures
        Cost::FixedCost(a).spec_matches(Cost::FixedCost(b)) == (a == b),
{
}

/// A fixed cost and a variable cost match exactly when the fixed amount lies
/// within the bounds, and it makes no difference which of the two is the
/// pattern.
pub proof fn lemma_fixed_matches_range(a: u8, lo: u8, hi: u8)
    ensures
        Cost::FixedCost(a).spec_matches(Cost::VariableCost(lo, hi)) == (lo <= a <= hi),
        Cost::VariableCost(lo, hi).spec_matches(Cost::FixedCost(a)) == (lo <= a <= hi),
{
}

/// Two variable costs match exactly when the first one's upper bound is at
/// least the second one's lower bound, or the first one's lower bound is at
/// most the second one's upper bound.
pub proof fn lemma_range_matches_range(lo1: u8, hi1: u8, lo2: u8, hi2: u8)
    ensures
        Cost::VariableCost(lo1, hi1).spec_matches(Cost::VariableCost(lo2, hi2)) == (hi1 >= lo2
            || lo1 <= hi2),
{
}

/// The comparison gives the same answer when cost and pattern are swapped.
pub proof fn lemma_matches_symmetric(value: Cost, pattern: Cost)
    ensures
        value.spec_matches(pattern) == pattern.spec_matches(value),
{
}

/// Costs that have an amount in common always match.
pub proof fn lemma_intersecting_costs_match(value: Cost, pattern: Cost)
    requires
        value.intersects(pattern),
    ensures
        value.spec_matches(pattern),
{
}

/// As soon as one side is a fixed cost, matching is exactly intersection.
pub proof fn lemma_match_with_fixed_is_intersection(value: Cost, pattern: Cost)
    requires
        value is FixedCost || pattern is FixedCost,
        value.well_formed(),
        pattern.well_formed(),
    ensures
        value.spec_matches(pattern) == value.intersects(pattern),
{
}

/// Two variable costs whose bounds are in order match whatever the bounds
/// are, even when no amount satisfies both: `VariableCost(0, 0)` matches
/// `VariableCost(5, 10)`.
pub proof fn lemma_ordered_ranges_always_match(lo1: u8, hi1: u8, lo2: u8, hi2: u8)
    requires
        lo1 <= hi1,
        lo2 <= hi2,
    ensures
        Cost::VariableCost(lo1, hi1).spec_matches(Cost::VariableCost(lo2, hi2)),
{
}

/// A variable cost whose bounds are inverted matches no fixed cost, on
/// either side.
pub proof fn lemma_inverted_range_matches_no_fixed(a: u8, lo: u8, hi: u8)
    requires
        lo > hi,
    ensures
        !Cost::FixedCost(a).spec_matches(Cost::VariableCost(lo, hi)),
        !Cost::VariableCost(lo, hi).spec_matches(Cost::FixedCost(a)),
{
}

/// A spell never fills a step whose movement points or wakfu points differ
/// from its own, whatever the action points are.
pub proof fn lemma_secondary_mismatch_rejects(candidate: SpellCost, pattern: SpellCost)
    requires
        candidate.mp != pattern.mp || candidate.wp != pattern.wp,
    ensures
        !candidate.spec_match_pattern(pattern),
{
}

/// With equal movement and wakfu points, whether a spell fills a step is
/// decided by the action points alone.
pub proof fn lemma_secondary_equal_defers_to_primary(candidate: SpellCost, pattern: SpellCost)
    requires
        candidate.mp == pattern.mp,
        candidate.wp == pattern.wp,
    ensures
        candidate.spec_match_pattern(pattern) == pattern.ap.spec_matches(candidate.ap),
{
}

} // verus!
