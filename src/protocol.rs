//! Messages exchanged with clients and their mathematical views.
use vstd::prelude::*;

verus! {

/// A move in a round.
#[derive(Clone, Copy, Debug, PartialEq, Eq, Structural)]
pub enum Choice {
    Rock,
    Paper,
    Scissors,
}

/// The wire name of a move.
pub open spec fn choice_label(c: Choice) -> Seq<char> {
    match c {
        Choice::Rock => "rock"@,
        Choice::Paper => "paper"@,
        Choice::Scissors => "scissors"@,
    }
}

/// The move that a wire name denotes, if any.
pub open spec fn parse_choice(s: Seq<char>) -> Option<Choice> {
    if s == "rock"@ {
        Some(Choice::Rock)
    } else if s == "paper"@ {
        Some(Choice::Paper)
    } else if s == "scissors"@ {
        Some(Choice::Scissors)
    } else {
        None
    }
}

/// How an optional move is shown in a round result: its name or `none`.
pub open spec fn shown_choice(c: Option<Choice>) -> Seq<char> {
    match c {
        Some(c) => choice_label(c),
        None => "none"@,
    }
}

/// Character-wise equality of two strings.
pub fn str_equal(a: &str, b: &str) -> (r: bool)
    ensures
        r == (a@ == b@),
{
    let n = a.unicode_len();
    if n != b.unicode_len() {
        return false;
    }
    let mut i: usize = 0;
    while i < n
        invariant
            n == a@.len() == b@.len(),
            i <= n,
            forall|j: int| 0 <= j < i ==> a@[j] == b@[j],
        decreases n - i,
    {
        if a.get_char(i) != b.get_char(i) {
            return false;
        }
        i = i + 1;
    }
    assert(a@ =~= b@);
    true
}

impl Choice {
    /// Reads a move from its wire name.
    pub fn parse(s: &str) -> (r: Option<Choice>)
        ensures
            r == parse_choice(s@),
    {
        if str_equal(s, "rock") {
            Some(Choice::Rock)
        } else if str_equal(s, "paper") {
            Some(Choice::Paper)
        } else if str_equal(s, "scissors") {
            Some(Choice::Scissors)
        } else {
            None
        }
    }

    /// The wire name of this move.
    pub fn label(&self) -> (r: String)
        ensures
            r@ == choice_label(*self),
    {
        match self {
            Choice::Rock => String::from_str("rock"),
            Choice::Paper => String::from_str("paper"),
            Choice::Scissors => String::from_str("scissors"),
        }
    }
}

/// An optional move as shown in a round result.
pub fn show_choice(c: Option<Choice>) -> (r: String)
    ensures
        r@ == shown_choice(c),
{
    match c {
        Some(c) => c.label(),
        None => String::from_str("none"),
    }
}

/// The opponent as announced when a match is found.
#[derive(Clone, Debug)]
pub struct OpponentInfo {
    pub username: String,
    pub elo: i32,
}

/// A frame sent from the server to a client.
#[derive(Clone, Debug)]
pub enum ServerMessage {
    Queued,
    MatchFound { session_id: String, opponent: OpponentInfo },
    RoundStart { round: i32, timeout_secs: u64 },
    OpponentChose,
    RoundResult {
        round: i32,
        your_choice: String,
        opponent_choice: String,
        winner: String,
        your_score: i32,
        opponent_score: i32,
    },
    MatchComplete {
        result: String,
        your_score: i32,
        opponent_score: i32,
        elo_change: Option<i32>,
        new_elo: Option<i32>,
    },
    OpponentDisconnected,
    Error { message: String },
}

/// The content of a server frame, with strings as character sequences.
pub enum MessageView {
    Queued,
    MatchFound { session_id: Seq<char>, opponent_name: Seq<char>, opponent_elo: int },
    RoundStart { round: int, timeout_secs: int },
    OpponentChose,
    RoundResult {
        round: int,
        your_choice: Seq<char>,
        opponent_choice: Seq<char>,
        winner: Seq<char>,
        your_score: int,
        opponent_score: int,
    },
    MatchComplete {
        result: Seq<char>,
        your_score: int,
        opponent_score: int,
        elo_change: Option<int>,
        new_elo: Option<int>,
    },
    OpponentDisconnected,
    Error { message: Seq<char> },
}

pub open spec fn opt_int(o: Option<i32>) -> Option<int> {
    match o {
        Some(v) => Some(v as int),
        None => None,
    }
}

impl View for ServerMessage {
    type V = MessageView;

    open spec fn view(&self) -> MessageView {
        match self {
            ServerMessage::Queued => MessageView::Queued,
            ServerMessage::MatchFound { session_id, opponent } => MessageView::MatchFound {
                session_id: session_id@,
                opponent_name: opponent.username@,
                opponent_elo: opponent.elo as int,
            },
            ServerMessage::RoundStart { round, timeout_secs } => MessageView::RoundStart {
                round: *round as int,
                timeout_secs: *timeout_secs as int,
            },
            ServerMessage::OpponentChose => MessageView::OpponentChose,
            ServerMessage::RoundResult {
                round,
                your_choice,
                opponent_choice,
                winner,
                your_score,
                opponent_score,
            } => MessageView::RoundResult {
                round: *round as int,
                your_choice: your_choice@,
                opponent_choice: opponent_choice@,
                winner: winner@,
                your_score: *your_score as int,
                opponent_score: *opponent_score as int,
            },
            ServerMessage::MatchComplete {
                result,
                your_score,
                opponent_score,
                elo_change,
                new_elo,
            } => MessageView::MatchComplete {
                result: result@,
                your_score: *your_score as int,
                opponent_score: *opponent_score as int,
                elo_change: opt_int(*elo_change),
                new_elo: opt_int(*new_elo),
            },
            ServerMessage::OpponentDisconnected => MessageView::OpponentDisconnected,
            ServerMessage::Error { message } => MessageView::Error { message: message@ },
        }
    }
}

/// A frame sent from a client to the server.
#[derive(Clone, Debug)]
pub enum ClientMessage {
    JoinQueue { ranked: Option<bool> },
    LeaveQueue,
    Choice { choice: String },
}

} // verus!
