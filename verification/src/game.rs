//! The move model: the three moves, parsing a move from a character, and
//! the cyclic dominance rule that scores a round.
use vstd::prelude::*;

verus! {

/// A player's current move.
#[derive(Clone, Copy, PartialEq, Eq, Structural, Debug)]
pub enum Move {
    Rock,
    Paper,
    Scissors,
}

/// Which move a single case-insensitive character selects: `r`/`R` is Rock,
/// `p`/`P` is Paper, `s`/`S` is Scissors; everything else selects nothing.
pub open spec fn parse_move_char(c: char) -> Option<Move> {
    if c == 'r' || c == 'R' {
        Some(Move::Rock)
    } else if c == 'p' || c == 'P' {
        Some(Move::Paper)
    } else if c == 's' || c == 'S' {
        Some(Move::Scissors)
    } else {
        None
    }
}

/// The cyclic dominance rule: Rock beats Scissors, Scissors beats Paper,
/// Paper beats Rock.
pub open spec fn beats(a: Move, b: Move) -> bool {
    ||| (a == Move::Rock && b == Move::Scissors)
    ||| (a == Move::Scissors && b == Move::Paper)
    ||| (a == Move::Paper && b == Move::Rock)
}

/// Round comparison: `1` if `a` beats `b`, `-1` if `b` beats `a`, `0` on a
/// tie. There is no total order; the relation is a 3-cycle.
pub open spec fn compare_moves(a: Move, b: Move) -> int {
    if beats(a, b) {
        1
    } else if beats(b, a) {
        -1
    } else {
        0
    }
}

/// The capitalized English name of a move, as it appears on the wire.
pub open spec fn move_name(m: Move) -> Seq<char> {
    match m {
        Move::Rock => "Rock"@,
        Move::Paper => "Paper"@,
        Move::Scissors => "Scissors"@,
    }
}

impl Move {
    /// Parse a move from one character, case-insensitively.
    pub fn from_char(c: char) -> (m: Option<Move>)
        ensures
            m == parse_move_char(c),
    {
        match c {
            'r' | 'R' => Some(Move::Rock),
            'p' | 'P' => Some(Move::Paper),
            's' | 'S' => Some(Move::Scissors),
            _ => None,
        }
    }

    /// Compare two moves under the cyclic dominance rule.
    ///
    /// Returns `1` if `self` beats `other`, `-1` if `other` beats `self`,
    /// and `0` on a tie.
    pub fn compare(&self, other: Move) -> (r: i32)
        ensures
            r as int == compare_moves(*self, other),
    {
        if *self == other {
            0
        } else if (*self == Move::Rock && other == Move::Scissors)
            || (*self == Move::Scissors && other == Move::Paper)
            || (*self == Move::Paper && other == Move::Rock) {
            1
        } else {
            -1
        }
    }

    /// The capitalized English name of the move.
    pub fn name(&self) -> (s: &'static str)
        ensures
            s@ == move_name(*self),
    {
        match *self {
            Move::Rock => "Rock",
            Move::Paper => "Paper",
            Move::Scissors => "Scissors",
        }
    }
}

/// The comparison rule is antisymmetric under swap-and-negate, every move
/// ties with itself, and two distinct moves are always ordered one way or
/// the other.
pub proof fn lemma_compare_antisymmetric(a: Move, b: Move)
    ensures
        compare_moves(a, b) == -compare_moves(b, a),
        a == b ==> compare_moves(a, b) == 0,
        a != b ==> compare_moves(a, b) == 1 || compare_moves(a, b) == -1,
{
}

/// The dominance rule is the exact 3-cycle: Rock beats Scissors, Scissors
/// beats Paper, Paper beats Rock, each in that direction only.
pub proof fn lemma_compare_cyclic()
    ensures
        compare_moves(Move::Rock, Move::Scissors) == 1,
        compare_moves(Move::Scissors, Move::Paper) == 1,
        compare_moves(Move::Paper, Move::Rock) == 1,
        compare_moves(Move::Scissors, Move::Rock) == -1,
        compare_moves(Move::Paper, Move::Scissors) == -1,
        compare_moves(Move::Rock, Move::Paper) == -1,
{
}

} // verus!
