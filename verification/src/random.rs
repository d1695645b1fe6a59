//! The random stream that every generator draws from.
//!
//! [`RandomStream`] is the capability; [`SeededStream`] supplies it from a
//! seeded pseudo-random generator and [`ScriptedStream`] replays a fixed
//! script of fractions, which makes a generation run reproducible draw by
//! draw.  Every stream keeps a record of its draws, what was asked and what
//! came back, so that a contract can say what a function asked of the stream
//! and how its result follows from the answers.

use rand::distributions::Distribution;
use rand::distributions::WeightedIndex;
use rand::rngs::StdRng;
use rand::Rng;
use rand::SeedableRng;
use vstd::prelude::*;

use crate::fixed_point::lemma_fraction_of_span;
use crate::fixed_point::mul_div;
use crate::fixed_point::UNIT;

verus! {

/// The sum of a sequence of weights.
pub open spec fn weights_total(weights: Seq<u32>) -> nat
    decreases weights.len(),
{
    if weights.len() == 0 {
        0
    } else {
        weights_total(weights.drop_last()) + weights.last() as nat
    }
}

/// Weights that a weighted draw accepts: at least one of them, not all zero,
/// and a total that fits the weight type.
pub open spec fn weights_usable(weights: Seq<u32>) -> bool {
    weights.len() > 0 && 0 < weights_total(weights) <= u32::MAX
}

/// Appending a weight adds it to the total.
pub proof fn lemma_total_push(weights: Seq<u32>, weight: u32)
    ensures
        weights_total(weights.push(weight)) == weights_total(weights) + weight as nat,
{
    assert(weights.push(weight).drop_last() =~= weights);
}

/// Appends `weight` to `weights`.
pub fn push_weight(weights: &mut Vec<u32>, weight: u32)
    ensures
        final(weights)@ == old(weights)@.push(weight),
        weights_total(final(weights)@) == weights_total(old(weights)@) + weight as nat,
{
    proof {
        lemma_total_push(weights@, weight);
    }
    weights.push(weight);
}

/// One draw from a stream: what was asked of the stream, and what came back.
pub enum Draw {
    /// A value was asked from the half-open range `[low, high)`.
    Uniform { low: u64, high: u64, value: u64 },
    /// An index was asked by weight.
    Weighted { weights: Seq<u32>, index: usize },
}

/// The draw that asked for a value of `[low, high)` and got `value`.
pub open spec fn uniform_draw(low: u64, high: u64, value: u64) -> Draw {
    Draw::Uniform { low, high, value }
}

/// The draw that asked for an index by `weights` and got `index`.
pub open spec fn weighted_draw(weights: Seq<u32>, index: usize) -> Draw {
    Draw::Weighted { weights, index }
}

/// A record that grew out of one that grew out of another grew out of that
/// other.
pub proof fn lemma_prefix_transitive(first: Seq<Draw>, second: Seq<Draw>, third: Seq<Draw>)
    requires
        first.is_prefix_of(second),
        second.is_prefix_of(third),
    ensures
        first.is_prefix_of(third),
{
    assert forall|i: int| 0 <= i < first.len() implies #[trigger] third[i] == first[i] by {
        assert(second[i] == first[i]);
    }
}

/// A source of random draws.  A stream keeps the record of every draw made
/// from it; the contracts state what holds of every draw, whatever the
/// source, and that the draw is added to the record.
pub trait RandomStream {
    /// Every draw made from the stream so far, the oldest first.
    spec fn drawn(&self) -> Seq<Draw>;

    /// What the answers of the stream follow from: a script, or a seed.  No
    /// draw changes it.
    spec fn origin(&self) -> Seq<u64>;

    /// A draw from the half-open range `[low, high)`.
    fn uniform(&mut self, low: u64, high: u64) -> (r: u64)
        requires
            low < high,
        ensures
            low <= r < high,
            final(self).drawn() == old(self).drawn().push(uniform_draw(low, high, r)),
            final(self).origin() == old(self).origin(),
    ;

    /// The index of one of `weights`, drawn with probability proportional to
    /// its weight; an index of weight zero is never drawn.
    fn weighted_index(&mut self, weights: &Vec<u32>) -> (r: usize)
        requires
            weights_usable(weights@),
        ensures
            r < weights.len(),
            weights[r as int] > 0,
            final(self).drawn() == old(self).drawn().push(weighted_draw(weights@, r)),
            final(self).origin() == old(self).origin(),
    ;
}

/// `rand::rngs::StdRng`, the generator behind [`SeededStream`].  Nothing is
/// known of what it holds.
#[verifier::external_type_specification]
#[verifier::external_body]
pub struct ExStdRng(StdRng);

/// `StdRng::seed_from_u64`: a generator whose whole sequence follows from the
/// seed.  Nothing is claimed of the generator's state.
#[verifier::external_body]
fn std_rng_from_seed(seed: u64) -> StdRng {
    StdRng::seed_from_u64(seed)
}

/// `Rng::gen_range` on a half-open range of `u64`: the value lies in the
/// range.  The call panics on an empty range, which `requires` excludes.
#[verifier::external_body]
fn std_rng_range(rng: &mut StdRng, low: u64, high: u64) -> (r: u64)
    requires
        low < high,
    ensures
        low <= r < high,
{
    rng.gen_range(low..high)
}

/// `WeightedIndex::new` followed by `sample`.  Construction succeeds exactly
/// when there is a weight and the weights are not all zero; the sample is the
/// first index whose running total exceeds a value drawn below the grand
/// total, so it is in range and its own weight is positive.  Summing the
/// weights must not overflow, which `requires` states.
#[verifier::external_body]
fn std_rng_weighted(rng: &mut StdRng, weights: &Vec<u32>) -> (r: Option<usize>)
    requires
        weights_total(weights@) <= u32::MAX,
    ensures
        r is Some <==> weights_usable(weights@),
        r matches Some(i) ==> i < weights.len() && weights[i as int] > 0,
{
    match WeightedIndex::new(weights) {
        Ok(distribution) => Some(distribution.sample(rng)),
        Err(_) => None,
    }
}

/// A random stream backed by a seeded pseudo-random generator.
pub struct SeededStream {
    rng: StdRng,
    seed: u64,
    record: Ghost<Seq<Draw>>,
}

impl SeededStream {
    /// The seed that the stream was made from.
    pub closed spec fn seed_of(&self) -> u64 {
        self.seed
    }

    /// A stream whose draws follow from `seed`, and from which nothing has
    /// been drawn yet.
    pub fn from_seed(seed: u64) -> (stream: SeededStream)
        ensures
            stream.seed_of() == seed,
            stream.drawn() == Seq::<Draw>::empty(),
    {
        SeededStream { rng: std_rng_from_seed(seed), seed, record: Ghost(Seq::empty()) }
    }

    /// The seed that the stream was made from.
    pub fn seed(&self) -> (seed: u64)
        ensures
            seed == self.seed_of(),
    {
        self.seed
    }
}

impl RandomStream for SeededStream {
    closed spec fn drawn(&self) -> Seq<Draw> {
        self.record@
    }

    open spec fn origin(&self) -> Seq<u64> {
        seq![self.seed_of()]
    }

    fn uniform(&mut self, low: u64, high: u64) -> (r: u64)
        ensures
            final(self).seed_of() == old(self).seed_of(),
    {
        let value: u64 = std_rng_range(&mut self.rng, low, high);
        self.record = Ghost(self.record@.push(uniform_draw(low, high, value)));
        value
    }

    fn weighted_index(&mut self, weights: &Vec<u32>) -> (r: usize)
        ensures
            final(self).seed_of() == old(self).seed_of(),
    {
        let index: usize = match std_rng_weighted(&mut self.rng, weights) {
            Some(index) => index,
            None => 0,
        };
        self.record = Ghost(self.record@.push(weighted_draw(weights@, index)));
        index
    }
}

/// The point of `[low, high)` that lies `fraction` millionths of the way from
/// `low` to `high`.
pub open spec fn point_at(low: u64, high: u64, fraction: u64) -> int {
    low + (high - low) * fraction / (UNIT as int)
}

/// The weights before index `count` sum to at most `chosen`, and together with
/// the weight at `count` they exceed it: `count` is where `chosen` falls.
pub open spec fn falls_at(weights: Seq<u32>, chosen: nat, count: int) -> bool {
    &&& 0 <= count < weights.len()
    &&& weights_total(weights.take(count)) <= chosen < weights_total(weights.take(count + 1))
}

/// Extending a prefix by one weight adds that weight to its total.
pub proof fn lemma_prefix_total_step(weights: Seq<u32>, count: int)
    requires
        0 <= count < weights.len(),
    ensures
        weights_total(weights.take(count + 1)) == weights_total(weights.take(count))
            + weights[count] as nat,
{
    assert(weights.take(count + 1).drop_last() =~= weights.take(count));
}

/// Prefix totals never decrease.
pub proof fn lemma_prefix_total_monotone(weights: Seq<u32>, shorter: int, longer: int)
    requires
        0 <= shorter <= longer <= weights.len(),
    ensures
        weights_total(weights.take(shorter)) <= weights_total(weights.take(longer)),
    decreases longer - shorter,
{
    if shorter < longer {
        lemma_prefix_total_monotone(weights, shorter, longer - 1);
        lemma_prefix_total_step(weights, longer - 1);
    }
}

/// A value below the grand total falls at exactly one index.
pub proof fn lemma_falls_at_unique(weights: Seq<u32>, chosen: nat, first: int, second: int)
    requires
        falls_at(weights, chosen, first),
        falls_at(weights, chosen, second),
    ensures
        first == second,
{
    if first < second {
        lemma_prefix_total_monotone(weights, first + 1, second);
    } else if second < first {
        lemma_prefix_total_monotone(weights, second + 1, first);
    }
}

/// Where the cursor of a scripted stream stands after a number of draws:
/// it starts at the head of the script, moves on by one with each draw, and
/// starts over when the script ends.
pub open spec fn cursor_after(length: nat, draws: nat) -> int
    decreases draws,
{
    if draws == 0 {
        0
    } else {
        let earlier = cursor_after(length, (draws - 1) as nat);
        if earlier + 1 == length {
            0
        } else {
            earlier + 1
        }
    }
}

/// The draw is what a scripted stream answers with at `fraction`: a value
/// that far into its range, or the index at which that share of the total
/// weight falls.
pub open spec fn answers(fraction: u64, draw: Draw) -> bool {
    match draw {
        Draw::Uniform { low, high, value } => value == point_at(low, high, fraction),
        Draw::Weighted { weights, index } => falls_at(
            weights,
            (weights_total(weights) * fraction / (UNIT as int)) as nat,
            index as int,
        ),
    }
}

/// A random stream that replays a script.  Each draw takes the next fraction
/// of the script, in millionths, and the script starts over when it ends; a
/// script of the single fraction `500_000` answers every uniform draw with
/// the midpoint of its range.
pub struct ScriptedStream {
    fractions: Vec<u64>,
    state: (usize, Ghost<Seq<Draw>>),
}

impl ScriptedStream {
    #[verifier::type_invariant]
    spec fn well_formed(&self) -> bool {
        &&& Self::script_usable(self.fractions@)
        &&& self.state.0 < self.fractions@.len()
        &&& self.state.0 == cursor_after(self.fractions@.len(), self.state.1@.len())
        &&& forall|i: int|
            0 <= i < self.state.1@.len() ==> answers(
                self.fractions@[cursor_after(self.fractions@.len(), i as nat)],
                #[trigger] self.state.1@[i],
            )
    }

    /// The script, in millionths.
    pub closed spec fn script(&self) -> Seq<u64> {
        self.fractions@
    }

    /// The index in the script of the fraction that the next draw takes.
    pub closed spec fn cursor(&self) -> int {
        self.state.0 as int
    }

    /// The fraction that the next draw takes.
    pub open spec fn next_fraction(&self) -> u64 {
        self.script()[self.cursor()]
    }

    /// The stream after one draw: the same script, the cursor moved on.
    pub open spec fn advanced(&self, after: &ScriptedStream) -> bool {
        &&& after.script() == self.script()
        &&& after.cursor() == if self.cursor() + 1 == self.script().len() {
            0
        } else {
            self.cursor() + 1
        }
    }

    /// A script is usable when it is not empty and each fraction is below one.
    pub open spec fn script_usable(fractions: Seq<u64>) -> bool {
        &&& fractions.len() > 0
        &&& forall|i: int| 0 <= i < fractions.len() ==> #[trigger] fractions[i] < UNIT
    }

    /// The record of the stream follows from its script: the cursor stands
    /// where that many draws leave it, and each draw on record is what the
    /// stream answers with at the fraction that the cursor then stood at.
    pub open spec fn follows_script(&self) -> bool {
        &&& Self::script_usable(self.script())
        &&& 0 <= self.cursor() < self.script().len()
        &&& self.cursor() == cursor_after(self.script().len(), self.drawn().len())
        &&& forall|i: int|
            0 <= i < self.drawn().len() ==> answers(
                self.script()[cursor_after(self.script().len(), i as nat)],
                #[trigger] self.drawn()[i],
            )
    }

    /// A stream that replays `fractions`, or `None` when the script is empty
    /// or holds a fraction of one or more.
    pub fn new(fractions: Vec<u64>) -> (stream: Option<ScriptedStream>)
        ensures
            stream is Some <==> Self::script_usable(fractions@),
            stream matches Some(s) ==> s.script() == fractions@ && s.cursor() == 0 && s.drawn()
                == Seq::<Draw>::empty(),
    {
        if fractions.len() == 0 {
            return None;
        }
        let mut index: usize = 0;
        while index < fractions.len()
            invariant
                index <= fractions.len(),
                forall|i: int| 0 <= i < index ==> #[trigger] fractions[i] < UNIT,
            decreases fractions.len() - index,
        {
            if fractions[index] >= UNIT {
                return None;
            }
            index += 1;
        }
        Some(ScriptedStream { fractions, state: (0, Ghost(Seq::empty())) })
    }

    /// A stream that answers every draw with the same fraction, or `None`
    /// when the fraction is one or more.
    pub fn constant(fraction: u64) -> (stream: Option<ScriptedStream>)
        ensures
            stream is Some <==> fraction < UNIT,
            stream matches Some(s) ==> s.script() == seq![fraction] && s.cursor() == 0 && s.drawn()
                == Seq::<Draw>::empty(),
    {
        let mut fractions: Vec<u64> = Vec::new();
        fractions.push(fraction);
        assert(fractions@[0] == fraction);
        Self::new(fractions)
    }

    /// The index in the script of the fraction that the next draw takes.
    /// The record of a stream always follows from its script.
    pub fn position(&self) -> (position: usize)
        ensures
            position == self.cursor(),
            self.follows_script(),
    {
        proof {
            use_type_invariant(self);
        }
        self.state.0
    }

    /// The cursor after one more draw.
    fn next_position(&self) -> (position: usize)
        ensures
            position == if self.cursor() + 1 == self.script().len() {
                0
            } else {
                self.cursor() + 1
            },
            position < self.script().len(),
            position == cursor_after(self.script().len(), self.drawn().len() + 1),
    {
        proof {
            use_type_invariant(self);
        }
        let length: usize = self.fractions.len();
        if self.state.0 + 1 == length {
            0
        } else {
            self.state.0 + 1
        }
    }

    /// The fraction that the next draw takes.
    fn fraction(&self) -> (fraction: u64)
        ensures
            fraction == self.next_fraction(),
            fraction < UNIT,
            fraction == self.script()[cursor_after(self.script().len(), self.drawn().len())],
    {
        proof {
            use_type_invariant(self);
        }
        self.fractions[self.state.0]
    }
}

impl RandomStream for ScriptedStream {
    closed spec fn drawn(&self) -> Seq<Draw> {
        self.state.1@
    }

    open spec fn origin(&self) -> Seq<u64> {
        self.script()
    }

    fn uniform(&mut self, low: u64, high: u64) -> (r: u64)
        ensures
            r == point_at(low, high, old(self).next_fraction()),
            old(self).advanced(final(self)),
    {
        let fraction: u64 = self.fraction();
        let position: usize = self.next_position();
        proof {
            lemma_fraction_of_span(high - low, fraction as int, UNIT as int);
            use_type_invariant(&*self);
        }
        let value: u64 = low + mul_div(high - low, fraction, UNIT);
        self.state = (position, Ghost(self.state.1@.push(uniform_draw(low, high, value))));
        value
    }

    fn weighted_index(&mut self, weights: &Vec<u32>) -> (r: usize)
        ensures
            falls_at(
                weights@,
                (weights_total(weights@) * old(self).next_fraction() / (UNIT as int)) as nat,
                r as int,
            ),
            old(self).advanced(final(self)),
    {
        let fraction: u64 = self.fraction();
        let position: usize = self.next_position();
        let mut total: u64 = 0;
        let mut index: usize = 0;
        while index < weights.len()
            invariant
                index <= weights.len(),
                total == weights_total(weights@.take(index as int)),
                weights_total(weights@) <= u32::MAX,
            decreases weights.len() - index,
        {
            proof {
                lemma_prefix_total_step(weights@, index as int);
                lemma_prefix_total_monotone(weights@, index + 1, weights.len() as int);
                assert(weights@.take(weights.len() as int) =~= weights@);
            }
            total += weights[index] as u64;
            index += 1;
        }
        assert(weights@.take(weights.len() as int) =~= weights@);
        proof {
            lemma_fraction_of_span(total as int, fraction as int, UNIT as int);
        }
        let chosen: u64 = mul_div(total, fraction, UNIT);
        let mut running: u64 = 0;
        let mut found: usize = 0;
        while running + weights[found] as u64 <= chosen
            invariant
                found < weights.len(),
                running == weights_total(weights@.take(found as int)),
                running <= chosen < total,
                total == weights_total(weights@),
                total <= u32::MAX,
            decreases weights.len() - found,
        {
            proof {
                lemma_prefix_total_step(weights@, found as int);
            }
            running += weights[found] as u64;
            found += 1;
        }
        proof {
            lemma_prefix_total_step(weights@, found as int);
            use_type_invariant(&*self);
        }
        self.state = (position, Ghost(self.state.1@.push(weighted_draw(weights@, found))));
        found
    }
}

} // verus!
