//! The state machine of one best-of-three match.
//!
//! A session is driven by four events: its start, a move from a
//! participant, the expiry of a round's timer and a participant's
//! disconnection. Each returns a [`SessionStep`]: the frames to send, in
//! order, the round whose timer to arm, and the settlement to carry out once
//! the match is over. The settlement itself ([`Settlement::settle`]) takes
//! the players' game counts, which live in the store, and yields the new
//! ratings, the counter updates and the final frames.
use vstd::prelude::*;
use crate::models::{Round, RoundView};
use crate::protocol::{
    choice_label,
    parse_choice,
    show_choice,
    shown_choice,
    Choice,
    MessageView,
    ServerMessage,
};
use crate::models::opt_str;
use crate::rating::{calculate_elo, elo_spec, rating_change_bounded, MatchOutcome};

verus! {

/// Seconds a round waits for moves.
pub const ROUND_TIMEOUT_SECS: u64 = 15;

/// Round wins that end a match.
pub const WINS_NEEDED: i32 = 2;

/// Rounds after which a match ends in any case.
pub const MAX_ROUNDS: i32 = 5;

/// Player one or player two of a match.
#[derive(Clone, Copy, Debug, PartialEq, Eq, Structural)]
pub enum Side {
    One,
    Two,
}

pub open spec fn other_side(s: Side) -> Side {
    match s {
        Side::One => Side::Two,
        Side::Two => Side::One,
    }
}

/// Who took a round.
#[derive(Clone, Copy, Debug, PartialEq, Eq, Structural)]
pub enum RoundWinner {
    Player1,
    Player2,
    Draw,
}

/// Rock beats scissors, paper beats rock, scissors beat paper.
pub open spec fn beats(a: Choice, b: Choice) -> bool {
    (a == Choice::Rock && b == Choice::Scissors) || (a == Choice::Paper && b == Choice::Rock) || (a
        == Choice::Scissors && b == Choice::Paper)
}

/// The winner of a round: a side that moved beats a side that did not; two
/// missing or equal moves draw.
pub open spec fn round_winner(p1: Option<Choice>, p2: Option<Choice>) -> RoundWinner {
    match (p1, p2) {
        (None, None) => RoundWinner::Draw,
        (Some(_), None) => RoundWinner::Player1,
        (None, Some(_)) => RoundWinner::Player2,
        (Some(a), Some(b)) => if a == b {
            RoundWinner::Draw
        } else if beats(a, b) {
            RoundWinner::Player1
        } else {
            RoundWinner::Player2
        },
    }
}

pub fn determine_winner(p1: Option<Choice>, p2: Option<Choice>) -> (r: RoundWinner)
    ensures
        r == round_winner(p1, p2),
{
    match (p1, p2) {
        (None, None) => RoundWinner::Draw,
        (Some(_), None) => RoundWinner::Player1,
        (None, Some(_)) => RoundWinner::Player2,
        (Some(a), Some(b)) => {
            if a == b {
                RoundWinner::Draw
            } else if (a == Choice::Rock && b == Choice::Scissors) || (a == Choice::Paper && b
                == Choice::Rock) || (a == Choice::Scissors && b == Choice::Paper) {
                RoundWinner::Player1
            } else {
                RoundWinner::Player2
            }
        },
    }
}

/// A participant of a match, as the session knows it.
#[derive(Clone, Debug)]
pub struct Participant {
    pub user_id: String,
    pub username: String,
    pub elo: i32,
    pub is_guest: bool,
    pub is_filler: bool,
}

/// A move sent to a session by a participant.
#[derive(Clone, Debug)]
pub struct PlayerChoice {
    pub user_id: String,
    pub choice: String,
}

/// A participant's connection went away.
#[derive(Clone, Debug)]
pub struct PlayerDisconnected {
    pub user_id: String,
}

/// A frame addressed to one side.
#[derive(Clone, Debug)]
pub struct Outbound {
    pub to: Side,
    pub message: ServerMessage,
}

pub open spec fn views(s: Seq<Outbound>) -> Seq<(Side, MessageView)> {
    s.map_values(|o: Outbound| (o.to, o.message@))
}

/// How a side's final result reads on the wire.
#[derive(Clone, Copy, Debug, PartialEq, Eq, Structural)]
pub enum GameResult {
    Win,
    Loss,
    Draw,
}

pub open spec fn result_label(g: GameResult) -> Seq<char> {
    match g {
        GameResult::Win => "win"@,
        GameResult::Loss => "loss"@,
        GameResult::Draw => "draw"@,
    }
}

impl GameResult {
    pub fn label(&self) -> (r: String)
        ensures
            r@ == result_label(*self),
    {
        match self {
            GameResult::Win => String::from_str("win"),
            GameResult::Loss => String::from_str("loss"),
            GameResult::Draw => String::from_str("draw"),
        }
    }
}

/// Player one's result for an outcome seen from player one.
pub open spec fn result_of(o: MatchOutcome) -> GameResult {
    match o {
        MatchOutcome::Win => GameResult::Win,
        MatchOutcome::Loss => GameResult::Loss,
        MatchOutcome::Draw => GameResult::Draw,
    }
}

/// The outcome of a match with these final scores, seen from player one.
pub open spec fn outcome_of(s1: int, s2: int) -> MatchOutcome {
    if s1 > s2 {
        MatchOutcome::Win
    } else if s2 > s1 {
        MatchOutcome::Loss
    } else {
        MatchOutcome::Draw
    }
}

/// How a round's winner reads to one side.
pub open spec fn winner_word(w: RoundWinner, side: Side) -> Seq<char> {
    match (w, side) {
        (RoundWinner::Draw, _) => "draw"@,
        (RoundWinner::Player1, Side::One) => "you"@,
        (RoundWinner::Player2, Side::Two) => "you"@,
        _ => "opponent"@,
    }
}

pub open spec fn round_start_views(round: int) -> Seq<(Side, MessageView)> {
    seq![
        (Side::One, MessageView::RoundStart { round, timeout_secs: ROUND_TIMEOUT_SECS as int }),
        (Side::Two, MessageView::RoundStart { round, timeout_secs: ROUND_TIMEOUT_SECS as int }),
    ]
}

/// The two round-result frames, each from its side's perspective.
pub open spec fn round_result_views(
    round: int,
    c1: Option<Choice>,
    c2: Option<Choice>,
    s1: int,
    s2: int,
) -> Seq<(Side, MessageView)> {
    let w = round_winner(c1, c2);
    seq![
        (Side::One, MessageView::RoundResult {
            round,
            your_choice: shown_choice(c1),
            opponent_choice: shown_choice(c2),
            winner: winner_word(w, Side::One),
            your_score: s1,
            opponent_score: s2,
        }),
        (Side::Two, MessageView::RoundResult {
            round,
            your_choice: shown_choice(c2),
            opponent_choice: shown_choice(c1),
            winner: winner_word(w, Side::Two),
            your_score: s2,
            opponent_score: s1,
        }),
    ]
}

pub open spec fn opt_label(c: Option<Choice>) -> Option<Seq<char>> {
    match c {
        Some(c) => Some(choice_label(c)),
        None => None,
    }
}

/// Whether a match stands over after a round with these scores.
pub open spec fn match_over(s1: int, s2: int, round: int) -> bool {
    s1 >= WINS_NEEDED || s2 >= WINS_NEEDED || round >= MAX_ROUNDS
}

/// How a match ended.
#[derive(Clone, Copy, Debug, PartialEq, Eq, Structural)]
pub enum MatchStatus {
    Completed,
    Forfeit,
}

pub open spec fn status_label(s: MatchStatus) -> Seq<char> {
    match s {
        MatchStatus::Completed => "completed"@,
        MatchStatus::Forfeit => "forfeit"@,
    }
}

/// What remains to be done once a match is over: everything the store and
/// the final frames need, taken from the session at its end.
#[derive(Clone, Debug)]
pub struct Settlement {
    pub status: MatchStatus,
    pub p1_id: String,
    pub p2_id: String,
    pub is_ranked: bool,
    pub p1_elo_before: i32,
    pub p2_elo_before: i32,
    pub p1_score: i32,
    pub p2_score: i32,
    pub outcome: MatchOutcome,
    pub p1_filler: bool,
    pub p2_filler: bool,
    /// Whether player one still gets the final frame.
    pub p1_notified: bool,
    /// Whether player two still gets the final frame.
    pub p2_notified: bool,
}

/// What settling a match amounts to: the values to store and the final
/// frames to send.
pub struct SettlementResult {
    pub winner_id: Option<String>,
    pub status: String,
    pub p1_elo_after: i32,
    pub p2_elo_after: i32,
    /// Whether both players' ratings and rating-history entries are written.
    pub write_history: bool,
    /// The counter to bump for player one; none for a filler.
    pub p1_stats: Option<GameResult>,
    /// The counter to bump for player two; none for a filler.
    pub p2_stats: Option<GameResult>,
    pub messages: Vec<Outbound>,
}

/// Ratings after a settlement: moved by the rating function when ranked,
/// unchanged otherwise.
pub open spec fn settled_ratings(st: Settlement, g1: int, g2: int) -> (int, int) {
    if st.is_ranked {
        elo_spec(st.p1_elo_before as int, g1, st.p2_elo_before as int, g2, st.outcome)
    } else {
        (st.p1_elo_before as int, st.p2_elo_before as int)
    }
}

/// The final frame of one side.
pub open spec fn complete_view(
    ranked: bool,
    result: GameResult,
    own: int,
    other: int,
    before: int,
    after: int,
) -> MessageView {
    MessageView::MatchComplete {
        result: result_label(result),
        your_score: own,
        opponent_score: other,
        elo_change: if ranked {
            Some(after - before)
        } else {
            None
        },
        new_elo: if ranked {
            Some(after)
        } else {
            None
        },
    }
}

/// The final frames of a settlement: one for each side still connected,
/// player one's first.
pub open spec fn final_views(st: Settlement, a1: int, a2: int) -> Seq<(Side, MessageView)> {
    let first: Seq<(Side, MessageView)> = if st.p1_notified {
        seq![
            (Side::One, complete_view(
                st.is_ranked,
                result_of(st.outcome),
                st.p1_score as int,
                st.p2_score as int,
                st.p1_elo_before as int,
                a1,
            )),
        ]
    } else {
        seq![]
    };
    let second: Seq<(Side, MessageView)> = if st.p2_notified {
        seq![
            (Side::Two, complete_view(
                st.is_ranked,
                result_of(st.outcome.flipped()),
                st.p2_score as int,
                st.p1_score as int,
                st.p2_elo_before as int,
                a2,
            )),
        ]
    } else {
        seq![]
    };
    first + second
}

impl Settlement {
    pub open spec fn wf(&self) -> bool {
        &&& 0 <= self.p1_elo_before
        &&& 0 <= self.p2_elo_before
        &&& self.is_ranked ==> !self.p1_filler && !self.p2_filler
    }

    /// Settles the match, given how many games each player had played
    /// before it (they decide the K-factors of a ranked match).
    pub fn settle(&self, p1_games: i32, p2_games: i32) -> (r: SettlementResult)
        requires
            self.wf(),
        ensures
            (r.p1_elo_after as int, r.p2_elo_after as int) == settled_ratings(
                *self,
                p1_games as int,
                p2_games as int,
            ),
            r.write_history == self.is_ranked,
            r.status@ == status_label(self.status),
            opt_str(r.winner_id) == match self.outcome {
                MatchOutcome::Win => Some(self.p1_id@),
                MatchOutcome::Loss => Some(self.p2_id@),
                MatchOutcome::Draw => None,
            },
            r.p1_stats == if self.p1_filler {
                None
            } else {
                Some(result_of(self.outcome))
            },
            r.p2_stats == if self.p2_filler {
                None
            } else {
                Some(result_of(self.outcome.flipped()))
            },
            views(r.messages@) == final_views(*self, r.p1_elo_after as int, r.p2_elo_after as int),
    {
        let (a1, a2) = if self.is_ranked {
            calculate_elo(self.p1_elo_before, p1_games, self.p2_elo_before, p2_games, self.outcome)
        } else {
            (self.p1_elo_before, self.p2_elo_before)
        };
        proof {
            rating_change_bounded(
                self.p1_elo_before as int,
                p1_games as int,
                self.p2_elo_before as int,
                p2_games as int,
                self.outcome,
            );
        }
        let r1 = result_for(self.outcome);
        let r2 = result_for(self.outcome.flip());
        let mut messages: Vec<Outbound> = Vec::new();
        if self.p1_notified {
            messages.push(
                Outbound {
                    to: Side::One,
                    message: ServerMessage::MatchComplete {
                        result: r1.label(),
                        your_score: self.p1_score,
                        opponent_score: self.p2_score,
                        elo_change: if self.is_ranked {
                            Some(a1 - self.p1_elo_before)
                        } else {
                            None
                        },
                        new_elo: if self.is_ranked {
                            Some(a1)
                        } else {
                            None
                        },
                    },
                },
            );
        }
        if self.p2_notified {
            messages.push(
                Outbound {
                    to: Side::Two,
                    message: ServerMessage::MatchComplete {
                        result: r2.label(),
                        your_score: self.p2_score,
                        opponent_score: self.p1_score,
                        elo_change: if self.is_ranked {
                            Some(a2 - self.p2_elo_before)
                        } else {
                            None
                        },
                        new_elo: if self.is_ranked {
                            Some(a2)
                        } else {
                            None
                        },
                    },
                },
            );
        }
        assert(views(messages@) =~= final_views(*self, a1 as int, a2 as int));
        let winner_id = match self.outcome {
            MatchOutcome::Win => Some(self.p1_id.clone()),
            MatchOutcome::Loss => Some(self.p2_id.clone()),
            MatchOutcome::Draw => None,
        };
        let status = match self.status {
            MatchStatus::Completed => String::from_str("completed"),
            MatchStatus::Forfeit => String::from_str("forfeit"),
        };
        SettlementResult {
            winner_id,
            status,
            p1_elo_after: a1,
            p2_elo_after: a2,
            write_history: self.is_ranked,
            p1_stats: if self.p1_filler {
                None
            } else {
                Some(r1)
            },
            p2_stats: if self.p2_filler {
                None
            } else {
                Some(r2)
            },
            messages,
        }
    }
}

/// One write of a settlement to the store.
#[derive(Clone, Copy, Debug, PartialEq, Eq, Structural)]
pub enum StoreOp {
    /// Insert the match with both pre-match ratings.
    CreateMatch,
    /// Update the match with its final results and status.
    FinishMatch,
    /// Set a side's rating to its post-match value.
    UpdateRating(Side),
    /// Append a side's rating-history entry.
    AppendHistory(Side),
    /// Bump a side's game counter and the counter of its result.
    IncrementCounters(Side, GameResult),
}

/// The writes of a settlement, in the order they are attempted: the match
/// insert and update; then, when ranked, both ratings and both history
/// entries; then the counters of each side that is not a filler. A failed
/// write abandons the rest; the final frames go out in any case.
pub open spec fn store_plan_spec(r: SettlementResult) -> Seq<StoreOp> {
    let rated: Seq<StoreOp> = if r.write_history {
        seq![
            StoreOp::UpdateRating(Side::One),
            StoreOp::UpdateRating(Side::Two),
            StoreOp::AppendHistory(Side::One),
            StoreOp::AppendHistory(Side::Two),
        ]
    } else {
        seq![]
    };
    let first: Seq<StoreOp> = match r.p1_stats {
        Some(g) => seq![StoreOp::IncrementCounters(Side::One, g)],
        None => seq![],
    };
    let second: Seq<StoreOp> = match r.p2_stats {
        Some(g) => seq![StoreOp::IncrementCounters(Side::Two, g)],
        None => seq![],
    };
    seq![StoreOp::CreateMatch, StoreOp::FinishMatch] + rated + first + second
}

impl SettlementResult {
    /// The writes to attempt, in order; see [`store_plan_spec`].
    pub fn store_plan(&self) -> (r: Vec<StoreOp>)
        ensures
            r@ == store_plan_spec(*self),
    {
        let mut ops: Vec<StoreOp> = Vec::new();
        ops.push(StoreOp::CreateMatch);
        ops.push(StoreOp::FinishMatch);
        if self.write_history {
            ops.push(StoreOp::UpdateRating(Side::One));
            ops.push(StoreOp::UpdateRating(Side::Two));
            ops.push(StoreOp::AppendHistory(Side::One));
            ops.push(StoreOp::AppendHistory(Side::Two));
        }
        if let Some(g) = self.p1_stats {
            ops.push(StoreOp::IncrementCounters(Side::One, g));
        }
        if let Some(g) = self.p2_stats {
            ops.push(StoreOp::IncrementCounters(Side::Two, g));
        }
        assert(ops@ =~= store_plan_spec(*self));
        ops
    }
}

/// A settled match of two humans bumps each one's game counter exactly
/// once, and a ranked one writes both ratings and both history entries.
pub proof fn counters_bumped_once(st: Settlement, r: SettlementResult)
    requires
        !st.p1_filler,
        !st.p2_filler,
        r.p1_stats == Some(result_of(st.outcome)),
        r.p2_stats == Some(result_of(st.outcome.flipped())),
        r.write_history == st.is_ranked,
    ensures
        store_plan_spec(r).len() >= 4,
        store_plan_spec(r)[store_plan_spec(r).len() - 2] == StoreOp::IncrementCounters(
            Side::One,
            result_of(st.outcome),
        ),
        store_plan_spec(r)[store_plan_spec(r).len() - 1] == StoreOp::IncrementCounters(
            Side::Two,
            result_of(st.outcome.flipped()),
        ),
        forall|i: int|
            0 <= i < store_plan_spec(r).len() - 2 ==> !(store_plan_spec(r)[i] is IncrementCounters),
        st.is_ranked ==> store_plan_spec(r).len() == 8,
{
    let plan = store_plan_spec(r);
    if r.write_history {
        assert(plan =~= seq![
            StoreOp::CreateMatch,
            StoreOp::FinishMatch,
            StoreOp::UpdateRating(Side::One),
            StoreOp::UpdateRating(Side::Two),
            StoreOp::AppendHistory(Side::One),
            StoreOp::AppendHistory(Side::Two),
            StoreOp::IncrementCounters(Side::One, result_of(st.outcome)),
            StoreOp::IncrementCounters(Side::Two, result_of(st.outcome.flipped())),
        ]);
    } else {
        assert(plan =~= seq![
            StoreOp::CreateMatch,
            StoreOp::FinishMatch,
            StoreOp::IncrementCounters(Side::One, result_of(st.outcome)),
            StoreOp::IncrementCounters(Side::Two, result_of(st.outcome.flipped())),
        ]);
    }
}

fn result_for(o: MatchOutcome) -> (r: GameResult)
    ensures
        r == result_of(o),
{
    match o {
        MatchOutcome::Win => GameResult::Win,
        MatchOutcome::Loss => GameResult::Loss,
        MatchOutcome::Draw => GameResult::Draw,
    }
}

/// The result of one event.
pub struct SessionStep {
    pub messages: Vec<Outbound>,
    /// The round whose timer is to be armed now.
    pub arm_timer: Option<i32>,
    pub settlement: Option<Settlement>,
}

impl SessionStep {
    pub open spec fn is_empty(&self) -> bool {
        self.messages@.len() == 0 && self.arm_timer is None && self.settlement is None
    }

    fn empty() -> (r: SessionStep)
        ensures
            r.is_empty(),
    {
        SessionStep { messages: Vec::new(), arm_timer: None, settlement: None }
    }
}

/// The state of one match.
pub struct GameSessionActor {
    pub p1: Participant,
    pub p2: Participant,
    pub p1_choice: Option<Choice>,
    pub p2_choice: Option<Choice>,
    pub p1_score: i32,
    pub p2_score: i32,
    pub current_round: i32,
    pub rounds: Vec<Round>,
    pub is_ranked: bool,
    pub finished: bool,
    /// The side that disconnected, when the match ended by forfeit.
    pub forfeited_by: Option<Side>,
}

impl GameSessionActor {
    /// The session's invariant. While the match runs, round
    /// `current_round` awaits moves and every earlier round is logged.
    /// A completed match has logged its last round; a forfeited one ended
    /// while a round awaited moves.
    pub open spec fn wf(&self) -> bool {
        &&& 1 <= self.current_round <= MAX_ROUNDS
        &&& 0 <= self.p1_score
        &&& 0 <= self.p2_score
        &&& self.p1_score + self.p2_score <= self.rounds@.len()
        &&& forall|i: int| 0 <= i < self.rounds@.len() ==> self.rounds@[i].round_number == i + 1
        &&& 0 <= self.p1.elo
        &&& 0 <= self.p2.elo
        &&& self.is_ranked ==> !self.p1.is_guest && !self.p1.is_filler && !self.p2.is_guest
            && !self.p2.is_filler
        &&& if !self.finished {
            &&& self.rounds@.len() == self.current_round - 1
            &&& self.p1_score < WINS_NEEDED
            &&& self.p2_score < WINS_NEEDED
            &&& self.forfeited_by is None
        } else if self.forfeited_by is None {
            &&& self.rounds@.len() == self.current_round
            &&& match_over(self.p1_score as int, self.p2_score as int, self.current_round as int)
        } else {
            self.rounds@.len() == self.current_round - 1
        }
    }

    /// A session for a new match. It is ranked only if `ranked` was asked
    /// for and neither side is a guest or a filler.
    pub fn new(p1: Participant, p2: Participant, ranked: bool) -> (r: GameSessionActor)
        requires
            p1.elo >= 0,
            p2.elo >= 0,
        ensures
            r.wf(),
            !r.finished,
            r.p1 == p1,
            r.p2 == p2,
            r.is_ranked == (ranked && !p1.is_guest && !p1.is_filler && !p2.is_guest
                && !p2.is_filler),
            r.current_round == 1,
            r.rounds@.len() == 0,
            r.p1_score == 0 && r.p2_score == 0,
            r.p1_choice is None && r.p2_choice is None,
    {
        let is_ranked = ranked && !p1.is_guest && !p1.is_filler && !p2.is_guest && !p2.is_filler;
        GameSessionActor {
            p1,
            p2,
            p1_choice: None,
            p2_choice: None,
            p1_score: 0,
            p2_score: 0,
            current_round: 1,
            rounds: Vec::new(),
            is_ranked,
            finished: false,
            forfeited_by: None,
        }
    }

    /// Starts the current round: clears both moves, announces the round to
    /// both sides and asks for its timer. A finished match does nothing.
    pub fn start(&mut self) -> (r: SessionStep)
        requires
            old(self).wf(),
        ensures
            final(self).wf(),
            old(self).finished ==> *final(self) == *old(self) && r.is_empty(),
            !old(self).finished ==> {
                &&& *final(self) == GameSessionActor {
                    p1_choice: None,
                    p2_choice: None,
                    ..*old(self)
                }
                &&& views(r.messages@) == round_start_views(old(self).current_round as int)
                &&& r.arm_timer == Some(old(self).current_round)
                &&& r.settlement is None
            },
    {
        if self.finished {
            return SessionStep::empty();
        }
        self.p1_choice = None;
        self.p2_choice = None;
        let mut messages: Vec<Outbound> = Vec::new();
        push_round_start(&mut messages, self.current_round);
        assert(views(messages@) =~= round_start_views(self.current_round as int));
        SessionStep { messages, arm_timer: Some(self.current_round), settlement: None }
    }

    /// A move `choice` from `user_id`. It counts only while the match runs,
    /// if it names a move, and if it comes from a side that has not moved
    /// this round; otherwise nothing happens. The other side hears that a
    /// move was made; once both have moved the round is resolved at once,
    /// its frames following that notice.
    pub fn submit_choice(&mut self, user_id: &String, choice: &str) -> (r: SessionStep)
        requires
            old(self).wf(),
        ensures
            final(self).wf(),
            ({
                let o = *old(self);
                let c = parse_choice(choice@);
                let side = if user_id@ == o.p1.user_id@ && o.p1_choice is None {
                    Some(Side::One)
                } else if user_id@ == o.p2.user_id@ && o.p2_choice is None {
                    Some(Side::Two)
                } else {
                    None
                };
                if o.finished || c is None || side is None {
                    *final(self) == o && r.is_empty()
                } else {
                    let picked = if side == Some(Side::One) {
                        GameSessionActor { p1_choice: c, ..o }
                    } else {
                        GameSessionActor { p2_choice: c, ..o }
                    };
                    let told = seq![(other_side(side.unwrap()), MessageView::OpponentChose)];
                    if picked.p1_choice is Some && picked.p2_choice is Some {
                        resolved(picked, *final(self), r, told)
                    } else {
                        &&& *final(self) == picked
                        &&& views(r.messages@) == seq![
                            (other_side(side.unwrap()), MessageView::OpponentChose),
                        ]
                        &&& r.arm_timer is None
                        &&& r.settlement is None
                    }
                }
            }),
    {
        if self.finished {
            return SessionStep::empty();
        }
        let c = match Choice::parse(choice) {
            Some(c) => c,
            None => {
                return SessionStep::empty();
            },
        };
        let mut messages: Vec<Outbound> = Vec::new();
        let told: Side;
        if *user_id == self.p1.user_id && self.p1_choice.is_none() {
            self.p1_choice = Some(c);
            told = Side::Two;
        } else if *user_id == self.p2.user_id && self.p2_choice.is_none() {
            self.p2_choice = Some(c);
            told = Side::One;
        } else {
            return SessionStep::empty();
        }
        messages.push(Outbound { to: told, message: ServerMessage::OpponentChose });
        assert(views(messages@) =~= seq![(told, MessageView::OpponentChose)]);
        if self.p1_choice.is_some() && self.p2_choice.is_some() {
            self.resolve_round(messages)
        } else {
            SessionStep { messages, arm_timer: None, settlement: None }
        }
    }

    /// The timer of round `round` expired. It resolves that round with
    /// whatever moves were made, unless the round is already resolved or
    /// the match is over.
    pub fn round_timeout(&mut self, round: i32) -> (r: SessionStep)
        requires
            old(self).wf(),
        ensures
            final(self).wf(),
            old(self).finished || round != old(self).current_round ==> *final(self) == *old(self)
                && r.is_empty(),
            !old(self).finished && round == old(self).current_round ==> resolved(
                *old(self),
                *final(self),
                r,
                seq![],
            ),
    {
        if self.finished || round != self.current_round {
            return SessionStep::empty();
        }
        let messages: Vec<Outbound> = Vec::new();
        assert(views(messages@) =~= seq![]);
        self.resolve_round(messages)
    }

    /// Scores the current round, logs it and reports it to both sides; then
    /// either ends the match or starts the next round.
    fn resolve_round(&mut self, messages: Vec<Outbound>) -> (r: SessionStep)
        requires
            old(self).wf(),
            !old(self).finished,
        ensures
            final(self).wf(),
            resolved(*old(self), *final(self), r, views(messages@)),
    {
        let ghost prefix = views(messages@);
        let mut messages = messages;
        let c1 = self.p1_choice;
        let c2 = self.p2_choice;
        self.p1_choice = None;
        self.p2_choice = None;
        let winner = determine_winner(c1, c2);
        match winner {
            RoundWinner::Player1 => self.p1_score = self.p1_score + 1,
            RoundWinner::Player2 => self.p2_score = self.p2_score + 1,
            RoundWinner::Draw => {},
        }
        let tag = match winner {
            RoundWinner::Player1 => self.p1.user_id.clone(),
            RoundWinner::Player2 => self.p2.user_id.clone(),
            RoundWinner::Draw => String::from_str("draw"),
        };
        let record = Round {
            round_number: self.current_round,
            player1_choice: label_of(c1),
            player2_choice: label_of(c2),
            winner: Some(tag),
        };
        self.rounds.push(record);
        assert(self.rounds@.subrange(0, old(self).rounds@.len() as int) =~= old(self).rounds@);
        assert forall|i: int| 0 <= i < self.rounds@.len() implies self.rounds@[i].round_number
            == i + 1 by {
            if i < old(self).rounds@.len() {
                assert(self.rounds@[i] == old(self).rounds@[i]);
            }
        }
        let ghost before_results = messages@;
        messages.push(
            Outbound {
                to: Side::One,
                message: ServerMessage::RoundResult {
                    round: self.current_round,
                    your_choice: show_choice(c1),
                    opponent_choice: show_choice(c2),
                    winner: winner_text(winner, Side::One),
                    your_score: self.p1_score,
                    opponent_score: self.p2_score,
                },
            },
        );
        messages.push(
            Outbound {
                to: Side::Two,
                message: ServerMessage::RoundResult {
                    round: self.current_round,
                    your_choice: show_choice(c2),
                    opponent_choice: show_choice(c1),
                    winner: winner_text(winner, Side::Two),
                    your_score: self.p2_score,
                    opponent_score: self.p1_score,
                },
            },
        );
        assert(views(messages@) =~= views(before_results) + round_result_views(
            self.current_round as int,
            c1,
            c2,
            self.p1_score as int,
            self.p2_score as int,
        ));
        if self.p1_score >= WINS_NEEDED || self.p2_score >= WINS_NEEDED || self.current_round
            >= MAX_ROUNDS {
            self.finished = true;
            let settlement = self.completed_settlement();
            SessionStep { messages, arm_timer: None, settlement: Some(settlement) }
        } else {
            self.current_round = self.current_round + 1;
            let ghost before = messages@;
            push_round_start(&mut messages, self.current_round);
            assert(views(messages@) =~= views(before) + round_start_views(
                self.current_round as int,
            ));
            SessionStep { messages, arm_timer: Some(self.current_round), settlement: None }
        }
    }

    fn completed_settlement(&self) -> (st: Settlement)
        ensures
            completed_from(*self, st),
    {
        let outcome = if self.p1_score > self.p2_score {
            MatchOutcome::Win
        } else if self.p2_score > self.p1_score {
            MatchOutcome::Loss
        } else {
            MatchOutcome::Draw
        };
        Settlement {
            status: MatchStatus::Completed,
            p1_id: self.p1.user_id.clone(),
            p2_id: self.p2.user_id.clone(),
            is_ranked: self.is_ranked,
            p1_elo_before: self.p1.elo,
            p2_elo_before: self.p2.elo,
            p1_score: self.p1_score,
            p2_score: self.p2_score,
            outcome,
            p1_filler: self.p1.is_filler,
            p2_filler: self.p2.is_filler,
            p1_notified: true,
            p2_notified: true,
        }
    }

    /// `user_id` disconnected: unless the match is already over, it ends by
    /// forfeit. Player one forfeits if `user_id` is theirs, player two
    /// otherwise. The remaining side hears of the disconnection now and gets
    /// the final frame from the settlement; the side that left gets nothing.
    pub fn disconnect(&mut self, user_id: &String) -> (r: SessionStep)
        requires
            old(self).wf(),
        ensures
            final(self).wf(),
            old(self).finished ==> *final(self) == *old(self) && r.is_empty(),
            !old(self).finished ==> {
                let loser = if user_id@ == old(self).p1.user_id@ {
                    Side::One
                } else {
                    Side::Two
                };
                &&& *final(self) == GameSessionActor {
                    finished: true,
                    forfeited_by: Some(loser),
                    ..*old(self)
                }
                &&& views(r.messages@) == seq![
                    (other_side(loser), MessageView::OpponentDisconnected),
                ]
                &&& r.arm_timer is None
                &&& r.settlement matches Some(st) && forfeit_from(*old(self), loser, st)
            },
    {
        if self.finished {
            return SessionStep::empty();
        }
        let loser_is_p1 = *user_id == self.p1.user_id;
        self.finished = true;
        self.forfeited_by = Some(if loser_is_p1 { Side::One } else { Side::Two });
        let winner_side = if loser_is_p1 { Side::Two } else { Side::One };
        let mut messages: Vec<Outbound> = Vec::new();
        messages.push(Outbound { to: winner_side, message: ServerMessage::OpponentDisconnected });
        assert(views(messages@) =~= seq![(winner_side, MessageView::OpponentDisconnected)]);
        let settlement = Settlement {
            status: MatchStatus::Forfeit,
            p1_id: self.p1.user_id.clone(),
            p2_id: self.p2.user_id.clone(),
            is_ranked: self.is_ranked,
            p1_elo_before: self.p1.elo,
            p2_elo_before: self.p2.elo,
            p1_score: if loser_is_p1 { 0 } else { 2 },
            p2_score: if loser_is_p1 { 2 } else { 0 },
            outcome: if loser_is_p1 { MatchOutcome::Loss } else { MatchOutcome::Win },
            p1_filler: self.p1.is_filler,
            p2_filler: self.p2.is_filler,
            p1_notified: !loser_is_p1,
            p2_notified: loser_is_p1,
        };
        SessionStep { messages, arm_timer: None, settlement: Some(settlement) }
    }
}

/// A completed match has logged exactly as many rounds as its final round
/// number, at most five, numbered from 1 in order, with at most five round
/// wins between the sides, and ended because a side reached two wins or the
/// fifth round was played.
pub proof fn completed_match_shape(s: GameSessionActor)
    requires
        s.wf(),
        s.finished,
        s.forfeited_by is None,
    ensures
        s.rounds@.len() == s.current_round <= MAX_ROUNDS,
        s.p1_score + s.p2_score <= MAX_ROUNDS,
        s.p1_score >= WINS_NEEDED || s.p2_score >= WINS_NEEDED || s.current_round == MAX_ROUNDS,
        forall|i: int| 0 <= i < s.rounds@.len() ==> s.rounds@[i].round_number == i + 1,
{
}

/// Within the step that resolves round `k`, the frames come in round order:
/// first the move notices, then one round result per side for round `k`,
/// then, unless the match is over, the start of round `k + 1` for both
/// sides; nothing of round `k` follows its results.
pub proof fn resolution_frames_in_order(
    o: GameSessionActor,
    n: GameSessionActor,
    r: SessionStep,
    prefix: Seq<(Side, MessageView)>,
)
    requires
        resolved(o, n, r, prefix),
        forall|i: int| 0 <= i < prefix.len() ==> prefix[i].1 is OpponentChose,
    ensures
        ({
            let v = views(r.messages@);
            let p = prefix.len() as int;
            let k = o.current_round as int;
            &&& v.len() == p + if n.finished {
                2int
            } else {
                4int
            }
            &&& forall|i: int| 0 <= i < p ==> v[i].1 is OpponentChose
            &&& v[p].0 == Side::One && v[p + 1].0 == Side::Two
            &&& v[p].1 matches MessageView::RoundResult { round, .. } && round == k
            &&& v[p + 1].1 matches MessageView::RoundResult { round, .. } && round == k
            &&& forall|i: int| p + 2 <= i < v.len() ==> ((#[trigger] v[i]).1 matches MessageView::RoundStart {
                round,
                ..
            } && round == k + 1)
        }),
{
    let v = views(r.messages@);
    let p = prefix.len() as int;
    assert forall|i: int| 0 <= i < p implies v[i].1 is OpponentChose by {
        assert(v[i] == prefix[i]);
    }
}

/// A forfeited match is recorded 2-0 for the side that stayed.
pub proof fn forfeit_is_two_nil(s: GameSessionActor, loser: Side, st: Settlement)
    requires
        forfeit_from(s, loser, st),
    ensures
        (st.p1_score == 2 && st.p2_score == 0) || (st.p1_score == 0 && st.p2_score == 2),
        st.status == MatchStatus::Forfeit,
{
}

/// A session with a guest or a filler on either side is unranked, and so is
/// every settlement taken from it: it writes no rating history.
pub proof fn guest_or_filler_unranked(s: GameSessionActor, st: Settlement)
    requires
        s.wf(),
        s.p1.is_guest || s.p1.is_filler || s.p2.is_guest || s.p2.is_filler,
        completed_from(s, st) || forfeit_from(s, Side::One, st) || forfeit_from(s, Side::Two, st),
    ensures
        !s.is_ranked,
        !st.is_ranked,
{
}

/// Settling a match moves each rating by at most 40 points.
pub proof fn settled_change_bounded(st: Settlement, g1: int, g2: int)
    requires
        st.wf(),
    ensures
        -40 <= settled_ratings(st, g1, g2).0 - st.p1_elo_before <= 40,
        -40 <= settled_ratings(st, g1, g2).1 - st.p2_elo_before <= 40,
{
    rating_change_bounded(
        st.p1_elo_before as int,
        g1,
        st.p2_elo_before as int,
        g2,
        st.outcome,
    );
}

/// The final frames of a settlement are match-complete frames, at most one
/// per side: exactly one for each side still connected.
pub proof fn final_frame_once(st: Settlement, a1: int, a2: int)
    ensures
        final_views(st, a1, a2).len() == (if st.p1_notified {
            1int
        } else {
            0
        }) + (if st.p2_notified {
            1int
        } else {
            0
        }),
        forall|i: int|
            0 <= i < final_views(st, a1, a2).len() ==> final_views(st, a1, a2)[i].1 is MatchComplete,
        forall|i: int, j: int|
            0 <= i < j < final_views(st, a1, a2).len() ==> final_views(st, a1, a2)[i].0
                != final_views(st, a1, a2)[j].0,
        st.p1_notified <==> exists|i: int|
            0 <= i < final_views(st, a1, a2).len() && final_views(st, a1, a2)[i].0 == Side::One,
        st.p2_notified <==> exists|i: int|
            0 <= i < final_views(st, a1, a2).len() && final_views(st, a1, a2)[i].0 == Side::Two,
{
    let v = final_views(st, a1, a2);
    if st.p1_notified {
        assert(v[0].0 == Side::One);
    }
    if st.p2_notified {
        assert(v[v.len() - 1].0 == Side::Two);
    }
}

/// Every settlement that a well-formed session hands out is well formed,
/// so it can be settled.
pub proof fn settlement_well_formed(s: GameSessionActor, st: Settlement, loser: Side)
    requires
        s.wf(),
        completed_from(s, st) || forfeit_from(s, loser, st),
    ensures
        st.wf(),
{
}

/// The step that resolving the current round of `o` takes, ending in `n`;
/// its frames follow the frames `prefix` already decided in the same step.
pub open spec fn resolved(
    o: GameSessionActor,
    n: GameSessionActor,
    r: SessionStep,
    prefix: Seq<(Side, MessageView)>,
) -> bool {
    let w = round_winner(o.p1_choice, o.p2_choice);
    let s1 = o.p1_score + if w == RoundWinner::Player1 {
        1int
    } else {
        0int
    };
    let s2 = o.p2_score + if w == RoundWinner::Player2 {
        1int
    } else {
        0int
    };
    let k = o.current_round as int;
    let len = o.rounds@.len();
    let tag = match w {
        RoundWinner::Player1 => o.p1.user_id@,
        RoundWinner::Player2 => o.p2.user_id@,
        RoundWinner::Draw => "draw"@,
    };
    &&& n.p1 == o.p1
    &&& n.p2 == o.p2
    &&& n.is_ranked == o.is_ranked
    &&& n.p1_score == s1
    &&& n.p2_score == s2
    &&& n.p1_choice is None
    &&& n.p2_choice is None
    &&& n.forfeited_by is None
    &&& n.rounds@.len() == len + 1
    &&& n.rounds@.subrange(0, len as int) == o.rounds@
    &&& n.rounds@[len as int]@ == (RoundView {
        round_number: k,
        player1_choice: opt_label(o.p1_choice),
        player2_choice: opt_label(o.p2_choice),
        winner: Some(tag),
    })
    &&& if match_over(s1, s2, k) {
        &&& n.finished
        &&& n.current_round == k
        &&& views(r.messages@) == prefix + round_result_views(
            k,
            o.p1_choice,
            o.p2_choice,
            s1,
            s2,
        )
        &&& r.arm_timer is None
        &&& r.settlement matches Some(st) && completed_from(n, st)
    } else {
        &&& !n.finished
        &&& n.current_round == k + 1
        &&& views(r.messages@) == prefix + round_result_views(
            k,
            o.p1_choice,
            o.p2_choice,
            s1,
            s2,
        ) + round_start_views(k + 1)
        &&& r.arm_timer == Some((k + 1) as i32)
        &&& r.settlement is None
    }
}

/// `st` settles the completed match `s`.
pub open spec fn completed_from(s: GameSessionActor, st: Settlement) -> bool {
    &&& st.status == MatchStatus::Completed
    &&& st.p1_id@ == s.p1.user_id@
    &&& st.p2_id@ == s.p2.user_id@
    &&& st.is_ranked == s.is_ranked
    &&& st.p1_elo_before == s.p1.elo
    &&& st.p2_elo_before == s.p2.elo
    &&& st.p1_score == s.p1_score
    &&& st.p2_score == s.p2_score
    &&& st.outcome == outcome_of(s.p1_score as int, s.p2_score as int)
    &&& st.p1_filler == s.p1.is_filler
    &&& st.p2_filler == s.p2.is_filler
    &&& st.p1_notified && st.p2_notified
}

/// `st` settles the match `s` forfeited by `loser`: 2-0 to the other side.
pub open spec fn forfeit_from(s: GameSessionActor, loser: Side, st: Settlement) -> bool {
    &&& st.status == MatchStatus::Forfeit
    &&& st.p1_id@ == s.p1.user_id@
    &&& st.p2_id@ == s.p2.user_id@
    &&& st.is_ranked == s.is_ranked
    &&& st.p1_elo_before == s.p1.elo
    &&& st.p2_elo_before == s.p2.elo
    &&& st.p1_filler == s.p1.is_filler
    &&& st.p2_filler == s.p2.is_filler
    &&& if loser == Side::One {
        &&& st.p1_score == 0 && st.p2_score == 2
        &&& st.outcome == MatchOutcome::Loss
        &&& !st.p1_notified && st.p2_notified
    } else {
        &&& st.p1_score == 2 && st.p2_score == 0
        &&& st.outcome == MatchOutcome::Win
        &&& st.p1_notified && !st.p2_notified
    }
}

fn push_round_start(v: &mut Vec<Outbound>, round: i32)
    ensures
        final(v)@.len() == old(v)@.len() + 2,
        final(v)@.subrange(0, old(v)@.len() as int) == old(v)@,
        views(final(v)@) == views(old(v)@) + round_start_views(round as int),
{
    v.push(
        Outbound {
            to: Side::One,
            message: ServerMessage::RoundStart { round, timeout_secs: ROUND_TIMEOUT_SECS },
        },
    );
    v.push(
        Outbound {
            to: Side::Two,
            message: ServerMessage::RoundStart { round, timeout_secs: ROUND_TIMEOUT_SECS },
        },
    );
    assert(views(v@) =~= views(old(v)@) + round_start_views(round as int));
}

fn label_of(c: Option<Choice>) -> (r: Option<String>)
    ensures
        crate::models::opt_str(r) == opt_label(c),
{
    match c {
        Some(c) => Some(c.label()),
        None => None,
    }
}

fn winner_text(w: RoundWinner, side: Side) -> (r: String)
    ensures
        r@ == winner_word(w, side),
{
    match (w, side) {
        (RoundWinner::Draw, _) => String::from_str("draw"),
        (RoundWinner::Player1, Side::One) => String::from_str("you"),
        (RoundWinner::Player2, Side::Two) => String::from_str("you"),
        _ => String::from_str("opponent"),
    }
}

} // verus!
