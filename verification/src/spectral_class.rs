//! Spectral classes: the letter that names a star's temperature band.

use vstd::prelude::*;

use crate::error::AstronomicalError;
use crate::oracle::FormulaOracle;
use crate::oracle::TEMPERATURE_LIMIT;
use crate::random::push_weight;
use crate::random::uniform_draw;
use crate::random::weighted_draw;
use crate::random::Draw;
use crate::random::RandomStream;

verus! {

/// The spectral class of a star.  The classes O to M are those of the main
/// sequence, hottest first; L, T and Y are dwarfs too cool for it and D is a
/// white dwarf.
#[derive(Clone, Copy, Debug, PartialEq, Eq, Hash, Structural)]
pub enum SpectralClassType {
    /// Very hot and extremely luminous.
    O,
    /// Very luminous and blue.
    B,
    /// White or bluish white.
    A,
    /// Yellowish white.
    F,
    /// White to slightly yellowish.
    G,
    /// Yellowish to orange.
    K,
    /// Orange to red.
    M,
    /// Reddish.
    L,
    /// Dim red.
    T,
    /// Brown.
    Y,
    /// Dim white.
    D,
}

/// Below this temperature a main-sequence star is of class M.
pub const CLASS_K_TEMPERATURE: u64 = 3_700_000_000;

/// Below this temperature a main-sequence star is of class K or cooler.
pub const CLASS_G_TEMPERATURE: u64 = 5_200_000_000;

/// Below this temperature a main-sequence star is of class G or cooler.
pub const CLASS_F_TEMPERATURE: u64 = 6_000_000_000;

/// Below this temperature a main-sequence star is of class F or cooler.
pub const CLASS_A_TEMPERATURE: u64 = 7_500_000_000;

/// Below this temperature a main-sequence star is of class A or cooler.
pub const CLASS_B_TEMPERATURE: u64 = 10_000_000_000;

/// Below this temperature a main-sequence star is of class B or cooler.
pub const CLASS_O_TEMPERATURE: u64 = 33_000_000_000;

/// How many classes there are.
pub const CLASS_COUNT: u64 = 11;

impl SpectralClassType {
    /// The main-sequence class of a star of the given surface temperature.
    pub open spec fn class_of_temperature(temperature: u64) -> SpectralClassType {
        if temperature < CLASS_K_TEMPERATURE {
            SpectralClassType::M
        } else if temperature < CLASS_G_TEMPERATURE {
            SpectralClassType::K
        } else if temperature < CLASS_F_TEMPERATURE {
            SpectralClassType::G
        } else if temperature < CLASS_A_TEMPERATURE {
            SpectralClassType::F
        } else if temperature < CLASS_B_TEMPERATURE {
            SpectralClassType::A
        } else if temperature < CLASS_O_TEMPERATURE {
            SpectralClassType::B
        } else {
            SpectralClassType::O
        }
    }

    /// The main-sequence class of a star of the given surface temperature,
    /// which must be below the hottest that a star can have.
    pub fn from_temperature(temperature: u64) -> (class: SpectralClassType)
        requires
            temperature < TEMPERATURE_LIMIT,
        ensures
            class == Self::class_of_temperature(temperature),
    {
        if temperature < CLASS_K_TEMPERATURE {
            SpectralClassType::M
        } else if temperature < CLASS_G_TEMPERATURE {
            SpectralClassType::K
        } else if temperature < CLASS_F_TEMPERATURE {
            SpectralClassType::G
        } else if temperature < CLASS_A_TEMPERATURE {
            SpectralClassType::F
        } else if temperature < CLASS_B_TEMPERATURE {
            SpectralClassType::A
        } else if temperature < CLASS_O_TEMPERATURE {
            SpectralClassType::B
        } else {
            SpectralClassType::O
        }
    }

    /// The class of a main-sequence star of `mass`, as the oracle's
    /// temperature for that mass decides it.
    pub open spec fn main_sequence_class(oracle: &FormulaOracle, mass: u64) -> Result<
        SpectralClassType,
        AstronomicalError,
    > {
        match oracle.answer(mass) {
            Ok(properties) => Ok(Self::class_of_temperature(properties.temperature)),
            Err(error) => Err(error),
        }
    }

    /// The class of a main-sequence star of `mass`; fails as the oracle does
    /// when the mass is not one of a main-sequence star.
    pub fn get_main_sequence_from_mass(oracle: &FormulaOracle, mass: u64) -> (class: Result<
        SpectralClassType,
        AstronomicalError,
    >)
        ensures
            class == Self::main_sequence_class(oracle, mass),
    {
        let temperature: u64 = oracle.star_mass_to_temperature(mass)?;
        Ok(Self::from_temperature(temperature))
    }

    /// The class at a position of the list that `get_random` draws from.
    pub open spec fn weighted_choice_at(index: int) -> Option<SpectralClassType> {
        if index == 0 {
            Some(SpectralClassType::B)
        } else if index == 1 {
            Some(SpectralClassType::A)
        } else if index == 2 {
            Some(SpectralClassType::F)
        } else if index == 3 {
            Some(SpectralClassType::G)
        } else if index == 4 {
            Some(SpectralClassType::K)
        } else if index == 5 {
            Some(SpectralClassType::M)
        } else if index == 6 {
            Some(SpectralClassType::L)
        } else if index == 7 {
            Some(SpectralClassType::T)
        } else if index == 8 {
            Some(SpectralClassType::Y)
        } else if index == 9 {
            Some(SpectralClassType::D)
        } else {
            None
        }
    }

    /// The class at a position of the list that `get_random` draws from: B, A,
    /// F, G, K, M, L, T, Y, D.  There is none beyond the tenth.
    pub fn weighted_choice(index: usize) -> (class: Option<SpectralClassType>)
        ensures
            class == Self::weighted_choice_at(index as int),
    {
        match index {
            0 => Some(SpectralClassType::B),
            1 => Some(SpectralClassType::A),
            2 => Some(SpectralClassType::F),
            3 => Some(SpectralClassType::G),
            4 => Some(SpectralClassType::K),
            5 => Some(SpectralClassType::M),
            6 => Some(SpectralClassType::L),
            7 => Some(SpectralClassType::T),
            8 => Some(SpectralClassType::Y),
            9 => Some(SpectralClassType::D),
            _ => None,
        }
    }

    /// The weights of the classes B, A, F, G, K, M, L, T, Y, D, in that order:
    /// the main-sequence classes by their abundance per thousand stars, the
    /// rare dwarfs raised to ten each.
    pub open spec fn class_weights() -> Seq<u32> {
        seq![1u32, 6u32, 30u32, 76u32, 121u32, 725u32, 10u32, 10u32, 10u32, 10u32]
    }

    /// One index was drawn by the weights of the ten classes, and `class` is
    /// the class that it stands for.
    pub open spec fn drew_weighted_class(
        before: Seq<Draw>,
        after: Seq<Draw>,
        index: usize,
        class: SpectralClassType,
    ) -> bool {
        &&& after == before.push(weighted_draw(Self::class_weights(), index))
        &&& index < 10
        &&& Self::weighted_choice_at(index as int) == Some(class)
    }

    /// A class drawn by weight from B, A, F, G, K, M, L, T, Y, D.  One index
    /// is drawn from the stream by the weights of these classes, and the
    /// class is the one that the index stands for.  Class O is never drawn.
    pub fn get_random<R: RandomStream>(rng: &mut R) -> (class: Result<
        SpectralClassType,
        AstronomicalError,
    >)
        ensures
            old(rng).drawn().is_prefix_of(final(rng).drawn()),
            final(rng).origin() == old(rng).origin(),
            class matches Ok(drawn) && exists|index: usize| #[trigger]
                Self::drew_weighted_class(old(rng).drawn(), final(rng).drawn(), index, drawn),
    {
        let mut weights: Vec<u32> = Vec::new();
        push_weight(&mut weights, 1);
        push_weight(&mut weights, 6);
        push_weight(&mut weights, 30);
        push_weight(&mut weights, 76);
        push_weight(&mut weights, 121);
        push_weight(&mut weights, 725);
        push_weight(&mut weights, 10);
        push_weight(&mut weights, 10);
        push_weight(&mut weights, 10);
        push_weight(&mut weights, 10);
        assert(weights@ =~= Self::class_weights());
        let index: usize = rng.weighted_index(&weights);
        match Self::weighted_choice(index) {
            Some(class) => {
                assert(Self::drew_weighted_class(old(rng).drawn(), rng.drawn(), index, class));
                Ok(class)
            },
            None => Err(AstronomicalError::QuantityOutOfRange),
        }
    }

    /// The class is one of the six that a main-sequence star is drawn from:
    /// B, A, F, G, K or M.
    pub open spec fn is_main_sequence_draw(self) -> bool {
        self == SpectralClassType::B || self == SpectralClassType::A || self
            == SpectralClassType::F || self == SpectralClassType::G || self == SpectralClassType::K
            || self == SpectralClassType::M
    }

    /// The class is one of the three that a habitable star is drawn from: F,
    /// G or K.
    pub open spec fn is_habitable_draw(self) -> bool {
        self == SpectralClassType::F || self == SpectralClassType::G || self
            == SpectralClassType::K
    }

    /// The weights of the classes B, A, F, G, K, M, in that order: their
    /// abundance per thousand stars.
    pub open spec fn main_sequence_weights() -> Seq<u32> {
        seq![1u32, 6u32, 30u32, 76u32, 121u32, 725u32]
    }

    /// The weights of the classes F, G, K, in that order.
    pub open spec fn habitable_weights() -> Seq<u32> {
        seq![30u32, 76u32, 121u32]
    }

    /// The main-sequence class that an index drawn by the weights of the
    /// main-sequence classes stands for: B for 0 up to M for 5.
    pub open spec fn main_sequence_choice_at(index: usize) -> Option<SpectralClassType> {
        if index < 6 {
            Self::weighted_choice_at(index as int)
        } else {
            None
        }
    }

    /// The class that an index drawn by the weights of the habitable classes
    /// stands for: F for 0, G for 1, K for 2.
    pub open spec fn habitable_choice_at(index: usize) -> Option<SpectralClassType> {
        if index < 3 {
            Self::weighted_choice_at(index + 2)
        } else {
            None
        }
    }

    /// One index was drawn by the weights of the main-sequence classes, and
    /// `class` is the class that it stands for.
    pub open spec fn drew_main_sequence_class(
        before: Seq<Draw>,
        after: Seq<Draw>,
        index: usize,
        class: SpectralClassType,
    ) -> bool {
        &&& after == before.push(weighted_draw(Self::main_sequence_weights(), index))
        &&& Self::main_sequence_choice_at(index) == Some(class)
    }

    /// One index was drawn by the weights of the habitable classes, and
    /// `class` is the class that it stands for.
    pub open spec fn drew_habitable_class(
        before: Seq<Draw>,
        after: Seq<Draw>,
        index: usize,
        class: SpectralClassType,
    ) -> bool {
        &&& after == before.push(weighted_draw(Self::habitable_weights(), index))
        &&& Self::habitable_choice_at(index) == Some(class)
    }

    /// A main-sequence class drawn by its abundance.  One index is drawn from
    /// the stream by the weights of the classes B, A, F, G, K, M, and the
    /// class is the one that the index stands for.
    pub fn get_random_main_sequence<R: RandomStream>(rng: &mut R) -> (class: SpectralClassType)
        ensures
            old(rng).drawn().is_prefix_of(final(rng).drawn()),
            final(rng).origin() == old(rng).origin(),
            class.is_main_sequence_draw(),
            exists|index: usize| #[trigger]
                Self::drew_main_sequence_class(old(rng).drawn(), final(rng).drawn(), index, class),
    {
        let mut weights: Vec<u32> = Vec::new();
        push_weight(&mut weights, 1);
        push_weight(&mut weights, 6);
        push_weight(&mut weights, 30);
        push_weight(&mut weights, 76);
        push_weight(&mut weights, 121);
        push_weight(&mut weights, 725);
        assert(weights@ =~= Self::main_sequence_weights());
        let index: usize = rng.weighted_index(&weights);
        let class: SpectralClassType = match Self::weighted_choice(index) {
            Some(class) => class,
            None => SpectralClassType::M,
        };
        assert(Self::drew_main_sequence_class(old(rng).drawn(), rng.drawn(), index, class));
        class
    }

    /// A class drawn by its abundance from those whose stars live long enough
    /// and shine steadily enough for life.  One index is drawn from the
    /// stream by the weights of the classes F, G, K, and the class is the one
    /// that the index stands for.
    pub fn get_random_habitable<R: RandomStream>(rng: &mut R) -> (class: SpectralClassType)
        ensures
            old(rng).drawn().is_prefix_of(final(rng).drawn()),
            final(rng).origin() == old(rng).origin(),
            class.is_habitable_draw(),
            exists|index: usize| #[trigger]
                Self::drew_habitable_class(old(rng).drawn(), final(rng).drawn(), index, class),
    {
        let mut weights: Vec<u32> = Vec::new();
        push_weight(&mut weights, 30);
        push_weight(&mut weights, 76);
        push_weight(&mut weights, 121);
        assert(weights@ =~= Self::habitable_weights());
        let index: usize = rng.weighted_index(&weights);
        let class: SpectralClassType = match Self::weighted_choice(index + 2) {
            Some(class) => class,
            None => SpectralClassType::K,
        };
        assert(Self::drew_habitable_class(old(rng).drawn(), rng.drawn(), index, class));
        class
    }

    /// The masses of the main-sequence stars of this class, as a half-open
    /// range in millionths of a solar mass; the classes off the main sequence
    /// have none.
    pub open spec fn mass_range_of(self) -> Option<(u64, u64)> {
        match self {
            SpectralClassType::O => Some((16_000_000u64, 120_000_000u64)),
            SpectralClassType::B => Some((2_100_000u64, 16_000_000u64)),
            SpectralClassType::A => Some((1_400_000u64, 2_100_000u64)),
            SpectralClassType::F => Some((1_040_000u64, 1_400_000u64)),
            SpectralClassType::G => Some((800_000u64, 1_040_000u64)),
            SpectralClassType::K => Some((450_000u64, 800_000u64)),
            SpectralClassType::M => Some((80_000u64, 450_000u64)),
            _ => None,
        }
    }

    /// The masses of the main-sequence stars of this class.
    pub fn spectral_class_to_mass_range(self) -> (range: Option<(u64, u64)>)
        ensures
            range == self.mass_range_of(),
    {
        match self {
            SpectralClassType::O => Some((16_000_000, 120_000_000)),
            SpectralClassType::B => Some((2_100_000, 16_000_000)),
            SpectralClassType::A => Some((1_400_000, 2_100_000)),
            SpectralClassType::F => Some((1_040_000, 1_400_000)),
            SpectralClassType::G => Some((800_000, 1_040_000)),
            SpectralClassType::K => Some((450_000, 800_000)),
            SpectralClassType::M => Some((80_000, 450_000)),
            _ => None,
        }
    }

    /// The masses of the stars of this class that can support life, as a
    /// half-open range in millionths of a solar mass; only the classes F, G
    /// and K have any.
    pub open spec fn habitable_mass_range_of(self) -> Option<(u64, u64)> {
        match self {
            SpectralClassType::F => Some((1_040_000u64, 1_250_000u64)),
            SpectralClassType::G => Some((800_000u64, 1_040_000u64)),
            SpectralClassType::K => Some((550_000u64, 800_000u64)),
            _ => None,
        }
    }

    /// The masses of the stars of this class that can support life.
    pub fn spectral_class_to_habitable_mass_range(self) -> (range: Option<(u64, u64)>)
        ensures
            range == self.habitable_mass_range_of(),
    {
        match self {
            SpectralClassType::F => Some((1_040_000, 1_250_000)),
            SpectralClassType::G => Some((800_000, 1_040_000)),
            SpectralClassType::K => Some((550_000, 800_000)),
            _ => None,
        }
    }

    /// The class with the given number, counting O as 0 and D as 10.
    pub open spec fn class_at(index: int) -> Option<SpectralClassType> {
        if index == 0 {
            Some(SpectralClassType::O)
        } else if 1 <= index <= 10 {
            Self::weighted_choice_at(index - 1)
        } else {
            None
        }
    }

    /// The class with the given number, counting O as 0 and D as 10.
    pub fn from_index(index: u64) -> (class: Option<SpectralClassType>)
        ensures
            class == Self::class_at(index as int),
            class is Some <==> index < CLASS_COUNT,
    {
        if index == 0 {
            Some(SpectralClassType::O)
        } else if index <= 10 {
            Self::weighted_choice((index - 1) as usize)
        } else {
            None
        }
    }

    /// One number was drawn from those of the eleven classes, and `class` is
    /// the class of that number.
    pub open spec fn drew_any_class(
        before: Seq<Draw>,
        after: Seq<Draw>,
        index: u64,
        class: SpectralClassType,
    ) -> bool {
        &&& after == before.push(uniform_draw(0, CLASS_COUNT, index))
        &&& Self::class_at(index as int) == Some(class)
    }

    /// A class drawn with every class equally likely, the rare ones
    /// included.  One number from 0 to 10 is drawn from the stream, and the
    /// class is the one with that number.
    pub fn sample<R: RandomStream>(rng: &mut R) -> (class: SpectralClassType)
        ensures
            old(rng).drawn().is_prefix_of(final(rng).drawn()),
            final(rng).origin() == old(rng).origin(),
            exists|index: u64| #[trigger]
                Self::drew_any_class(old(rng).drawn(), final(rng).drawn(), index, class),
    {
        let index: u64 = rng.uniform(0, CLASS_COUNT);
        let class: SpectralClassType = match Self::from_index(index) {
            Some(class) => class,
            None => SpectralClassType::D,
        };
        assert(Self::drew_any_class(old(rng).drawn(), rng.drawn(), index, class));
        class
    }
}

} // verus!
