//! Discrete options of the delay: its mode and the note divisions that a
//! tempo-synced delay time is derived from.

use vstd::prelude::*;
use vstd::arithmetic::power2::{lemma2_to64, pow2};

verus! {

/// Character of the delay: a clean digital one, or an analog one with
/// modulation and saturation in its feedback path.
#[derive(Debug, Clone, Copy, PartialEq, Eq, Structural)]
pub enum DelayMode {
    Digital,
    Analog,
}

impl Default for DelayMode {
    fn default() -> (mode: Self)
        ensures
            mode == DelayMode::Digital,
    {
        DelayMode::Digital
    }
}

/// Note value that a tempo-synced delay lasts, from a whole note down to a
/// sixteenth triplet.
#[derive(Debug, Clone, Copy, PartialEq, Eq, Structural)]
pub enum NoteDivision {
    Whole,
    Half,
    HalfDotted,
    HalfTriplet,
    Quarter,
    QuarterDotted,
    QuarterTriplet,
    Eighth,
    EighthDotted,
    EighthTriplet,
    Sixteenth,
    SixteenthDotted,
    SixteenthTriplet,
}

impl Default for NoteDivision {
    fn default() -> (division: Self)
        ensures
            division == NoteDivision::Quarter,
    {
        NoteDivision::Quarter
    }
}

/// Length of a note in beats, as an exact fraction. One beat is a quarter
/// note.
#[derive(Debug, Clone, Copy, PartialEq, Eq, Structural)]
pub struct BeatMultiplier {
    pub numerator: u32,
    pub denominator: u32,
}

impl NoteDivision {
    /// Length of the division in beats, as numerator and denominator.
    pub open spec fn beats(self) -> (int, int) {
        match self {
            NoteDivision::Whole => (4, 1),
            NoteDivision::Half => (2, 1),
            NoteDivision::HalfDotted => (3, 1),
            NoteDivision::HalfTriplet => (4, 3),
            NoteDivision::Quarter => (1, 1),
            NoteDivision::QuarterDotted => (3, 2),
            NoteDivision::QuarterTriplet => (2, 3),
            NoteDivision::Eighth => (1, 2),
            NoteDivision::EighthDotted => (3, 4),
            NoteDivision::EighthTriplet => (1, 3),
            NoteDivision::Sixteenth => (1, 4),
            NoteDivision::SixteenthDotted => (3, 8),
            NoteDivision::SixteenthTriplet => (1, 6),
        }
    }

    /// How many times a whole note is halved to reach the straight note
    /// value that the division is built on.
    pub open spec fn halvings(self) -> nat {
        match self {
            NoteDivision::Whole => 0,
            NoteDivision::Half | NoteDivision::HalfDotted | NoteDivision::HalfTriplet => 1,
            NoteDivision::Quarter | NoteDivision::QuarterDotted | NoteDivision::QuarterTriplet => 2,
            NoteDivision::Eighth | NoteDivision::EighthDotted | NoteDivision::EighthTriplet => 3,
            NoteDivision::Sixteenth
            | NoteDivision::SixteenthDotted
            | NoteDivision::SixteenthTriplet => 4,
        }
    }

    /// Factor by which the division stretches its straight note value, as a
    /// fraction: three halves for a dotted note, two thirds for a triplet,
    /// one for a straight note.
    pub open spec fn stretch(self) -> (int, int) {
        match self {
            NoteDivision::HalfDotted
            | NoteDivision::QuarterDotted
            | NoteDivision::EighthDotted
            | NoteDivision::SixteenthDotted => (3, 2),
            NoteDivision::HalfTriplet
            | NoteDivision::QuarterTriplet
            | NoteDivision::EighthTriplet
            | NoteDivision::SixteenthTriplet => (2, 3),
            _ => (1, 1),
        }
    }

    /// Length of the division as a multiple of one beat.
    pub fn as_beat_multiplier(self) -> (multiplier: BeatMultiplier)
        ensures
            (multiplier.numerator as int, multiplier.denominator as int) == self.beats(),
    {
        match self {
            NoteDivision::Whole => BeatMultiplier { numerator: 4, denominator: 1 },
            NoteDivision::Half => BeatMultiplier { numerator: 2, denominator: 1 },
            NoteDivision::HalfDotted => BeatMultiplier { numerator: 3, denominator: 1 },
            NoteDivision::HalfTriplet => BeatMultiplier { numerator: 4, denominator: 3 },
            NoteDivision::Quarter => BeatMultiplier { numerator: 1, denominator: 1 },
            NoteDivision::QuarterDotted => BeatMultiplier { numerator: 3, denominator: 2 },
            NoteDivision::QuarterTriplet => BeatMultiplier { numerator: 2, denominator: 3 },
            NoteDivision::Eighth => BeatMultiplier { numerator: 1, denominator: 2 },
            NoteDivision::EighthDotted => BeatMultiplier { numerator: 3, denominator: 4 },
            NoteDivision::EighthTriplet => BeatMultiplier { numerator: 1, denominator: 3 },
            NoteDivision::Sixteenth => BeatMultiplier { numerator: 1, denominator: 4 },
            NoteDivision::SixteenthDotted => BeatMultiplier { numerator: 3, denominator: 8 },
            NoteDivision::SixteenthTriplet => BeatMultiplier { numerator: 1, denominator: 6 },
        }
    }
}

/// The modulation controls act in analog mode only.
pub fn modulation_controls_enabled(mode: DelayMode) -> (enabled: bool)
    ensures
        enabled <==> mode == DelayMode::Analog,
{
    mode == DelayMode::Analog
}

/// The note division is in use while the delay time follows the tempo.
pub fn note_division_selector_enabled(tempo_sync: bool) -> (enabled: bool)
    ensures
        enabled == tempo_sync,
{
    tempo_sync
}

/// Every division lasts a positive number of beats, and that number is what
/// its name says: a whole note is four beats, each halving takes half of it,
/// and a dotted or triplet division stretches the result by its factor. In
/// fractions: `beats == 4 / 2^halvings * stretch`.
pub proof fn lemma_division_lengths(division: NoteDivision)
    ensures
        division.beats().0 > 0,
        division.beats().1 > 0,
        division.beats().0 * division.stretch().1 * pow2(division.halvings()) == 4
            * division.stretch().0 * division.beats().1,
{
    lemma2_to64();
    let length = division.beats();
    let stretch = division.stretch();
    let halved = pow2(division.halvings());
    match division {
        NoteDivision::Whole => {
            assert(length == (4int, 1int) && stretch == (1int, 1int) && halved == 1);
        },
        NoteDivision::Half => {
            assert(length == (2int, 1int) && stretch == (1int, 1int) && halved == 2);
        },
        NoteDivision::HalfDotted => {
            assert(length == (3int, 1int) && stretch == (3int, 2int) && halved == 2);
        },
        NoteDivision::HalfTriplet => {
            assert(length == (4int, 3int) && stretch == (2int, 3int) && halved == 2);
        },
        NoteDivision::Quarter => {
            assert(length == (1int, 1int) && stretch == (1int, 1int) && halved == 4);
        },
        NoteDivision::QuarterDotted => {
            assert(length == (3int, 2int) && stretch == (3int, 2int) && halved == 4);
        },
        NoteDivision::QuarterTriplet => {
            assert(length == (2int, 3int) && stretch == (2int, 3int) && halved == 4);
        },
        NoteDivision::Eighth => {
            assert(length == (1int, 2int) && stretch == (1int, 1int) && halved == 8);
        },
        NoteDivision::EighthDotted => {
            assert(length == (3int, 4int) && stretch == (3int, 2int) && halved == 8);
        },
        NoteDivision::EighthTriplet => {
            assert(length == (1int, 3int) && stretch == (2int, 3int) && halved == 8);
        },
        NoteDivision::Sixteenth => {
            assert(length == (1int, 4int) && stretch == (1int, 1int) && halved == 16);
        },
        NoteDivision::SixteenthDotted => {
            assert(length == (3int, 8int) && stretch == (3int, 2int) && halved == 16);
        },
        NoteDivision::SixteenthTriplet => {
            assert(length == (1int, 6int) && stretch == (2int, 3int) && halved == 16);
        },
    }
}

} // verus!
