//! Confidence and similarity scores.
//!
//! A score is a binary64 number, held as its bit pattern: the library compares
//! scores and hands them on unchanged, and never does arithmetic on them.
use vstd::prelude::*;

verus! {

/// A score, as the bit pattern of a binary64 number.
#[derive(Clone, Copy, Debug, PartialEq, Eq, Structural)]
pub struct Score {
    pub bits: u64,
}

/// The weight of the sign bit.
pub const SIGN_WEIGHT: u64 = 0x8000_0000_0000_0000;

/// The pattern of positive infinity. A larger magnitude is not a number.
pub const INFINITY_BITS: u64 = 0x7ff0_0000_0000_0000;

/// The pattern of one half, the least number whose exponent field is that of `0.5`.
pub const HALF_BITS: u64 = 0x3fe0_0000_0000_0000;

/// Two to the power of 52: a significand is at least this and less than twice this.
pub const SIGNIFICAND_WEIGHT: u64 = 0x10_0000_0000_0000;

impl Score {
    /// The pattern without its sign bit.
    pub open spec fn magnitude(self) -> int {
        if self.bits >= SIGN_WEIGHT {
            self.bits - SIGN_WEIGHT
        } else {
            self.bits as int
        }
    }

    /// Whether the pattern is not a number.
    pub open spec fn nan(self) -> bool {
        self.magnitude() > INFINITY_BITS
    }

    /// An integer that orders all scores that are numbers as their values are
    /// ordered; both zeros have the same.
    pub open spec fn rank(self) -> int {
        if self.bits >= SIGN_WEIGHT {
            -self.magnitude()
        } else {
            self.magnitude()
        }
    }

    /// Whether `self` is a smaller number than `other`. Nothing is below, or above,
    /// what is not a number.
    pub open spec fn below(self, other: Score) -> bool {
        !self.nan() && !other.nan() && self.rank() < other.rank()
    }

    /// For a score of at least one half and below one: the integer that, divided by
    /// two to the power of 53, is its value.
    pub open spec fn significand(self) -> int {
        self.bits - HALF_BITS + SIGNIFICAND_WEIGHT
    }

    fn exec_magnitude(&self) -> (m: u64)
        ensures
            m == self.magnitude(),
    {
        if self.bits >= SIGN_WEIGHT {
            self.bits - SIGN_WEIGHT
        } else {
            self.bits
        }
    }

    /// Tells whether the pattern is not a number.
    pub fn is_nan(&self) -> (b: bool)
        ensures
            b == self.nan(),
    {
        self.exec_magnitude() > INFINITY_BITS
    }

    /// Tells whether this score is a smaller number than `other`.
    pub fn is_below(&self, other: &Score) -> (b: bool)
        ensures
            b == self.below(*other),
    {
        if self.is_nan() || other.is_nan() {
            return false;
        }
        let mine: u64 = self.exec_magnitude();
        let theirs: u64 = other.exec_magnitude();
        let negative = self.bits >= SIGN_WEIGHT;
        let other_negative = other.bits >= SIGN_WEIGHT;
        if negative {
            if other_negative {
                theirs < mine
            } else {
                mine != 0 || theirs != 0
            }
        } else {
            !other_negative && mine < theirs
        }
    }

    /// The binary64 number nearest to `hundredths` / 100.
    pub fn of_hundredths(hundredths: u64) -> (s: Score)
        requires
            50 <= hundredths < 100,
        ensures
            s == hundredths_score(hundredths as int),
            s.nearest_to_hundredths(hundredths as int),
    {
        let significand: u64 = (hundredths * 0x20_0000_0000_0000 + 50) / 100;
        Score { bits: HALF_BITS + (significand - SIGNIFICAND_WEIGHT) }
    }

    /// Whether the value of this score, at least one half and below one, is as close
    /// to `hundredths` / 100 as such a number can be: off by at most half of the
    /// distance between neighbours.
    pub open spec fn nearest_to_hundredths(self, hundredths: int) -> bool {
        &&& HALF_BITS <= self.bits < HALF_BITS + SIGNIFICAND_WEIGHT
        &&& -50 <= 100 * self.significand() - hundredths * 0x20_0000_0000_0000 <= 50
    }
}

/// The binary64 number nearest to `hundredths` / 100, for 50 to 99 hundredths: its
/// significand is the rounded quotient.
pub open spec fn hundredths_score(hundredths: int) -> Score {
    Score {
        bits: (HALF_BITS + (hundredths * 0x20_0000_0000_0000 + 50) / 100
            - SIGNIFICAND_WEIGHT) as u64,
    }
}

/// Of two different counts of hundredths, the larger one has the larger score.
pub proof fn law_hundredths_keep_order(low: int, high: int)
    requires
        50 <= low < high < 100,
    ensures
        hundredths_score(low).below(hundredths_score(high)),
{
}

/// Scores that are numbers are ordered totally: of two, one is below the other or
/// they are equal in value, and being below is transitive and irreflexive.
pub proof fn law_scores_are_totally_ordered(a: Score, b: Score, c: Score)
    requires
        !a.nan(),
        !b.nan(),
    ensures
        !a.below(a),
        a.below(b) || b.below(a) || a.rank() == b.rank(),
        !(a.below(b) && b.below(a)),
        a.below(b) && b.below(c) ==> a.below(c),
{
}

/// What being below means for the bit patterns: a pattern whose magnitude is more than
/// that of infinity is no number and stands in no order; without a sign the larger
/// pattern is the larger number, with a sign the smaller one; and a number with a sign
/// is below one without, unless both are zero.
pub proof fn law_order_of_bit_patterns(a: Score, b: Score)
    ensures
        a.nan() <==> 0x7ff0_0000_0000_0000 < a.bits < 0x8000_0000_0000_0000 || a.bits
            > 0xfff0_0000_0000_0000,
        a.nan() || b.nan() ==> !a.below(b),
        !a.nan() && !b.nan() && a.bits < 0x8000_0000_0000_0000 && b.bits < 0x8000_0000_0000_0000
            ==> (a.below(b) <==> a.bits < b.bits),
        !a.nan() && !b.nan() && a.bits >= 0x8000_0000_0000_0000 && b.bits >= 0x8000_0000_0000_0000
            ==> (a.below(b) <==> b.bits < a.bits),
        !a.nan() && !b.nan() && a.bits >= 0x8000_0000_0000_0000 && b.bits < 0x8000_0000_0000_0000
            ==> (a.below(b) <==> !(a.bits == 0x8000_0000_0000_0000 && b.bits == 0)),
        !a.nan() && !b.nan() && a.bits < 0x8000_0000_0000_0000 && b.bits >= 0x8000_0000_0000_0000
            ==> !a.below(b),
        !a.nan() && !b.nan() ==> (a.rank() == b.rank() <==> !a.below(b) && !b.below(a)),
{
}

/// The score of a number of hundredths from one half up to one is the pattern whose
/// value, its significand over two to the power of 53, is off by at most half of the
/// distance between neighbours.
pub proof fn law_hundredths_are_rounded(hundredths: int)
    requires
        50 <= hundredths < 100,
    ensures
        ({
            let bits = hundredths_score(hundredths).bits as int;
            let significand = bits - 0x3fe0_0000_0000_0000 + 0x10_0000_0000_0000;
            &&& 0x3fe0_0000_0000_0000 <= bits < 0x3ff0_0000_0000_0000
            &&& -50 <= 100 * significand - hundredths * 0x20_0000_0000_0000 <= 50
        }),
{
}

} // verus!
