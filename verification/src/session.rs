//! The match state and its two transitions: applying an inbound datagram
//! to a player's current move, and scoring one tick under the dominance
//! rule.
use vstd::prelude::*;
use crate::Addr;
use crate::MATCH_DURATION_SECS;
use crate::game::Move;
use crate::game::beats;
use crate::game::compare_moves;
use crate::wire::parse_payload;
use crate::wire::parse_move_payload;

verus! {

/// Who won the match, judged by cumulative scores.
#[derive(Clone, Copy, PartialEq, Eq, Structural, Debug)]
pub enum Outcome {
    Player1Wins,
    Player2Wins,
    Draw,
}

/// The mutable match record: the two registered addresses, each player's
/// current move (Rock until overridden), and each player's cumulative
/// score.
#[derive(Clone, Copy, PartialEq, Eq, Structural, Debug)]
pub struct MatchState {
    pub p1_addr: Addr,
    pub p2_addr: Addr,
    pub p1_move: Move,
    pub p2_move: Move,
    pub p1_score: u32,
    pub p2_score: u32,
}

impl MatchState {
    /// The two registered addresses are distinct.
    pub open spec fn wf(self) -> bool {
        self.p1_addr != self.p2_addr
    }

    /// How one inbound datagram changes the state: a payload that parses as
    /// a move and comes from a registered address overwrites that player's
    /// current move; every other datagram changes nothing. Scores and
    /// addresses never change here.
    pub open spec fn apply_datagram(self, src: Addr, payload: Seq<u8>) -> MatchState {
        match parse_payload(payload) {
            Some(m) => if src == self.p1_addr {
                MatchState { p1_move: m, ..self }
            } else if src == self.p2_addr {
                MatchState { p2_move: m, ..self }
            } else {
                self
            },
            None => self,
        }
    }

    /// How one scoring tick changes the state: the player whose current
    /// move beats the other's gains one point; a tie changes nothing.
    pub open spec fn after_tick(self) -> MatchState {
        if beats(self.p1_move, self.p2_move) {
            MatchState { p1_score: (self.p1_score + 1) as u32, ..self }
        } else if beats(self.p2_move, self.p1_move) {
            MatchState { p2_score: (self.p2_score + 1) as u32, ..self }
        } else {
            self
        }
    }

    /// The outcome the scores decide: the higher cumulative score wins;
    /// equal scores draw.
    pub open spec fn outcome_spec(self) -> Outcome {
        if self.p1_score > self.p2_score {
            Outcome::Player1Wins
        } else if self.p2_score > self.p1_score {
            Outcome::Player2Wins
        } else {
            Outcome::Draw
        }
    }

    /// A fresh match between two distinct addresses: both moves default to
    /// Rock, both scores to zero.
    pub fn new(p1_addr: Addr, p2_addr: Addr) -> (s: MatchState)
        requires
            p1_addr != p2_addr,
        ensures
            s == (MatchState {
                p1_addr,
                p2_addr,
                p1_move: Move::Rock,
                p2_move: Move::Rock,
                p1_score: 0,
                p2_score: 0,
            }),
            s.wf(),
    {
        MatchState {
            p1_addr,
            p2_addr,
            p1_move: Move::Rock,
            p2_move: Move::Rock,
            p1_score: 0,
            p2_score: 0,
        }
    }

    /// Apply one inbound datagram: if the payload parses as a move and the
    /// sender is a registered player, overwrite that player's current move;
    /// otherwise leave the state exactly as it was.
    pub fn handle_datagram(&mut self, src: Addr, payload: &[u8])
        ensures
            *final(self) == old(self).apply_datagram(src, payload@),
    {
        if let Some(m) = parse_move_payload(payload) {
            if src == self.p1_addr {
                self.p1_move = m;
            } else if src == self.p2_addr {
                self.p2_move = m;
            }
        }
    }

    /// Score one tick: compare the current moves and award the winner one
    /// point. Moves and addresses are untouched; a tie leaves the scores
    /// untouched too.
    pub fn tick(&mut self)
        requires
            old(self).p1_score < u32::MAX,
            old(self).p2_score < u32::MAX,
        ensures
            *final(self) == old(self).after_tick(),
    {
        let cmp = self.p1_move.compare(self.p2_move);
        if cmp == 1 {
            self.p1_score = self.p1_score + 1;
        } else if cmp == -1 {
            self.p2_score = self.p2_score + 1;
        }
    }

    /// Judge the match by the cumulative scores.
    pub fn outcome(&self) -> (o: Outcome)
        ensures
            o == self.outcome_spec(),
    {
        if self.p1_score > self.p2_score {
            Outcome::Player1Wins
        } else if self.p2_score > self.p1_score {
            Outcome::Player2Wins
        } else {
            Outcome::Draw
        }
    }
}

/// The result string announced on the terminal broadcast.
pub open spec fn outcome_message(o: Outcome) -> Seq<char> {
    match o {
        Outcome::Player1Wins => "Player 1 wins!"@,
        Outcome::Player2Wins => "Player 2 wins!"@,
        Outcome::Draw => "It's a draw!"@,
    }
}

impl Outcome {
    /// The result string announced on the terminal broadcast.
    pub fn message(&self) -> (s: &'static str)
        ensures
            s@ == outcome_message(*self),
    {
        match *self {
            Outcome::Player1Wins => "Player 1 wins!",
            Outcome::Player2Wins => "Player 2 wins!",
            Outcome::Draw => "It's a draw!",
        }
    }
}

/// Nanoseconds in one second.
pub const NANOS_PER_SEC: u64 = 1_000_000_000;

/// The whole seconds left in the match after `elapsed_nanos` nanoseconds
/// have passed, rounded down. The match loop only asks while the match is
/// still running, so the elapsed time is below the full duration.
pub fn seconds_left(elapsed_nanos: u64) -> (r: u64)
    requires
        elapsed_nanos < MATCH_DURATION_SECS * NANOS_PER_SEC,
    ensures
        r == (MATCH_DURATION_SECS * NANOS_PER_SEC - elapsed_nanos) / NANOS_PER_SEC as int,
        r <= MATCH_DURATION_SECS,
{
    (MATCH_DURATION_SECS * NANOS_PER_SEC - elapsed_nanos) / NANOS_PER_SEC
}

/// An unparseable payload from a registered player changes nothing: that
/// player's current move, and the whole state, stay as they were.
pub proof fn lemma_unparseable_payload_ignored(s: MatchState, src: Addr, payload: Seq<u8>)
    requires
        src == s.p1_addr || src == s.p2_addr,
        parse_payload(payload) is None,
    ensures
        s.apply_datagram(src, payload) == s,
{
}

/// Tick monotonicity: a tick never lowers either cumulative score, awards
/// at most one point in total, and awards none on a tie.
pub proof fn lemma_tick_monotone(s: MatchState)
    requires
        s.p1_score < u32::MAX,
        s.p2_score < u32::MAX,
    ensures
        s.after_tick().p1_score >= s.p1_score,
        s.after_tick().p2_score >= s.p2_score,
        s.after_tick().p1_score + s.after_tick().p2_score <= s.p1_score + s.p2_score + 1,
        compare_moves(s.p1_move, s.p2_move) == 0 ==> s.after_tick() == s,
{
}

} // verus!
