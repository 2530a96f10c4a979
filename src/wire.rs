//! JSON text of the frames the server sends and of a match's round log.
//!
//! The framing is this module's own; quoting a string as a JSON string
//! literal is left to `serde_json`.
use vstd::prelude::*;
use crate::models::{opt_str, Round, RoundView};
use crate::protocol::{MessageView, ServerMessage};

verus! {

/// A string written as a JSON string literal, quotes included.
pub uninterp spec fn json_quoted(s: Seq<char>) -> Seq<char>;

/// Relies on `serde_json::to_string` on a `str`: the string as a JSON string
/// literal, with the escapes that JSON requires. Serialising a `str` writes
/// into a `Vec` and cannot fail.
#[verifier::external_body]
fn quote(s: &str) -> (r: Option<String>)
    ensures
        r is Some,
        r.unwrap()@ == json_quoted(s@),
{
    serde_json::to_string(s).ok()
}

pub open spec fn digit(d: int) -> char {
    if d == 0 {
        '0'
    } else if d == 1 {
        '1'
    } else if d == 2 {
        '2'
    } else if d == 3 {
        '3'
    } else if d == 4 {
        '4'
    } else if d == 5 {
        '5'
    } else if d == 6 {
        '6'
    } else if d == 7 {
        '7'
    } else if d == 8 {
        '8'
    } else {
        '9'
    }
}

/// The decimal digits of `n`, most significant first.
pub open spec fn digits(n: nat) -> Seq<char>
    decreases n,
{
    if n < 10 {
        seq![digit(n as int)]
    } else {
        digits(n / 10).push(digit((n % 10) as int))
    }
}

/// `n` in decimal, with a leading `-` when negative.
pub open spec fn decimal(n: int) -> Seq<char> {
    if n < 0 {
        seq!['-'] + digits((-n) as nat)
    } else {
        digits(n as nat)
    }
}

fn push_digit(out: &mut String, d: u64)
    requires
        d < 10,
    ensures
        final(out)@ == old(out)@.push(digit(d as int)),
{
    let s = if d == 0 {
        "0"
    } else if d == 1 {
        "1"
    } else if d == 2 {
        "2"
    } else if d == 3 {
        "3"
    } else if d == 4 {
        "4"
    } else if d == 5 {
        "5"
    } else if d == 6 {
        "6"
    } else if d == 7 {
        "7"
    } else if d == 8 {
        "8"
    } else {
        "9"
    };
    proof {
        reveal_strlit("0");
        reveal_strlit("1");
        reveal_strlit("2");
        reveal_strlit("3");
        reveal_strlit("4");
        reveal_strlit("5");
        reveal_strlit("6");
        reveal_strlit("7");
        reveal_strlit("8");
        reveal_strlit("9");
    }
    out.append(s);
    assert(out@ =~= old(out)@.push(digit(d as int)));
}

fn push_digits(out: &mut String, n: u64)
    ensures
        final(out)@ == old(out)@ + digits(n as nat),
    decreases n,
{
    if n >= 10 {
        push_digits(out, n / 10);
    }
    push_digit(out, n % 10);
    assert(out@ =~= old(out)@ + digits(n as nat));
}

/// Appends `n` in decimal.
pub fn push_decimal(out: &mut String, n: i64)
    ensures
        final(out)@ == old(out)@ + decimal(n as int),
{
    if n < 0 {
        out.append("-");
        proof {
            reveal_strlit("-");
        }
        let m: u64 = (0 - (n as i128)) as u64;
        push_digits(out, m);
        assert(out@ =~= old(out)@ + decimal(n as int));
    } else {
        push_digits(out, n as u64);
    }
}

/// Appends `s` as a JSON string literal.
fn push_quoted(out: &mut String, s: &String)
    ensures
        final(out)@ == old(out)@ + json_quoted(s@),
{
    let q = quote(s.as_str()).unwrap();
    out.append(q.as_str());
}

/// The JSON text of a server frame: the `type` tag first, then the fields
/// in order; an unset optional field is left out.
pub open spec fn message_json(m: MessageView) -> Seq<char> {
    match m {
        MessageView::Queued => "{\"type\":\"queued\"}"@,
        MessageView::MatchFound { session_id, opponent_name, opponent_elo } => "{\"type\":\"match_found\",\"session_id\":"@
            + json_quoted(session_id) + ",\"opponent\":{\"username\":"@ + json_quoted(
            opponent_name,
        ) + ",\"elo\":"@ + decimal(opponent_elo) + "}}"@,
        MessageView::RoundStart { round, timeout_secs } => "{\"type\":\"round_start\",\"round\":"@
            + decimal(round) + ",\"timeout_secs\":"@ + decimal(timeout_secs) + "}"@,
        MessageView::OpponentChose => "{\"type\":\"opponent_chose\"}"@,
        MessageView::RoundResult {
            round,
            your_choice,
            opponent_choice,
            winner,
            your_score,
            opponent_score,
        } => "{\"type\":\"round_result\",\"round\":"@ + decimal(round) + ",\"your_choice\":"@
            + json_quoted(your_choice) + ",\"opponent_choice\":"@ + json_quoted(opponent_choice)
            + ",\"winner\":"@ + json_quoted(winner) + ",\"your_score\":"@ + decimal(your_score)
            + ",\"opponent_score\":"@ + decimal(opponent_score) + "}"@,
        MessageView::MatchComplete {
            result,
            your_score,
            opponent_score,
            elo_change,
            new_elo,
        } => "{\"type\":\"match_complete\",\"result\":"@ + json_quoted(result)
            + ",\"your_score\":"@ + decimal(your_score) + ",\"opponent_score\":"@ + decimal(
            opponent_score,
        ) + optional_field(",\"elo_change\":"@, elo_change) + optional_field(
            ",\"new_elo\":"@,
            new_elo,
        ) + "}"@,
        MessageView::OpponentDisconnected => "{\"type\":\"opponent_disconnected\"}"@,
        MessageView::Error { message } => "{\"type\":\"error\",\"message\":"@ + json_quoted(
            message,
        ) + "}"@,
    }
}

/// `key` and the value's digits when set; nothing when unset.
pub open spec fn optional_field(key: Seq<char>, v: Option<int>) -> Seq<char> {
    match v {
        Some(n) => key + decimal(n),
        None => Seq::empty(),
    }
}

fn push_optional(out: &mut String, key: &str, v: Option<i32>)
    ensures
        final(out)@ == old(out)@ + optional_field(key@, crate::protocol::opt_int(v)),
{
    match v {
        Some(n) => {
            out.append(key);
            push_decimal(out, n as i64);
            assert(out@ =~= old(out)@ + optional_field(key@, crate::protocol::opt_int(v)));
        },
        None => {
            assert(out@ =~= old(out)@ + optional_field(key@, crate::protocol::opt_int(v)));
        },
    }
}

/// The JSON text of a frame.
pub fn encode_message(m: &ServerMessage) -> (r: String)
    ensures
        r@ == message_json(m@),
{
    let mut out = String::new();
    match m {
        ServerMessage::Queued => {
            out.append("{\"type\":\"queued\"}");
        },
        ServerMessage::MatchFound { session_id, opponent } => {
            out.append("{\"type\":\"match_found\",\"session_id\":");
            push_quoted(&mut out, session_id);
            out.append(",\"opponent\":{\"username\":");
            push_quoted(&mut out, &opponent.username);
            out.append(",\"elo\":");
            push_decimal(&mut out, opponent.elo as i64);
            out.append("}}");
        },
        ServerMessage::RoundStart { round, timeout_secs } => {
            out.append("{\"type\":\"round_start\",\"round\":");
            push_decimal(&mut out, *round as i64);
            out.append(",\"timeout_secs\":");
            push_digits(&mut out, *timeout_secs);
            out.append("}");
        },
        ServerMessage::OpponentChose => {
            out.append("{\"type\":\"opponent_chose\"}");
        },
        ServerMessage::RoundResult {
            round,
            your_choice,
            opponent_choice,
            winner,
            your_score,
            opponent_score,
        } => {
            out.append("{\"type\":\"round_result\",\"round\":");
            push_decimal(&mut out, *round as i64);
            out.append(",\"your_choice\":");
            push_quoted(&mut out, your_choice);
            out.append(",\"opponent_choice\":");
            push_quoted(&mut out, opponent_choice);
            out.append(",\"winner\":");
            push_quoted(&mut out, winner);
            out.append(",\"your_score\":");
            push_decimal(&mut out, *your_score as i64);
            out.append(",\"opponent_score\":");
            push_decimal(&mut out, *opponent_score as i64);
            out.append("}");
        },
        ServerMessage::MatchComplete { result, your_score, opponent_score, elo_change, new_elo } => {
            out.append("{\"type\":\"match_complete\",\"result\":");
            push_quoted(&mut out, result);
            out.append(",\"your_score\":");
            push_decimal(&mut out, *your_score as i64);
            out.append(",\"opponent_score\":");
            push_decimal(&mut out, *opponent_score as i64);
            push_optional(&mut out, ",\"elo_change\":", *elo_change);
            push_optional(&mut out, ",\"new_elo\":", *new_elo);
            out.append("}");
        },
        ServerMessage::OpponentDisconnected => {
            out.append("{\"type\":\"opponent_disconnected\"}");
        },
        ServerMessage::Error { message } => {
            out.append("{\"type\":\"error\",\"message\":");
            push_quoted(&mut out, message);
            out.append("}");
        },
    }
    assert(out@ =~= message_json(m@));
    out
}

/// An optional string as JSON: a string literal, or `null`.
pub open spec fn opt_json(o: Option<Seq<char>>) -> Seq<char> {
    match o {
        Some(s) => json_quoted(s),
        None => "null"@,
    }
}

/// The JSON object of one logged round.
pub open spec fn round_json(r: RoundView) -> Seq<char> {
    "{\"round_number\":"@ + decimal(r.round_number) + ",\"player1_choice\":"@ + opt_json(
        r.player1_choice,
    ) + ",\"player2_choice\":"@ + opt_json(r.player2_choice) + ",\"winner\":"@ + opt_json(
        r.winner,
    ) + "}"@
}

/// The objects of a round log, comma-separated.
pub open spec fn round_items(s: Seq<Round>) -> Seq<char>
    decreases s.len(),
{
    if s.len() == 0 {
        Seq::empty()
    } else if s.len() == 1 {
        round_json(s[0]@)
    } else {
        round_items(s.drop_last()) + ","@ + round_json(s.last()@)
    }
}

/// The JSON array of a round log.
pub open spec fn rounds_json(s: Seq<Round>) -> Seq<char> {
    "["@ + round_items(s) + "]"@
}

fn push_opt_quoted(out: &mut String, o: &Option<String>)
    ensures
        final(out)@ == old(out)@ + opt_json(opt_str(*o)),
{
    match o {
        Some(s) => push_quoted(out, s),
        None => out.append("null"),
    }
}

fn push_round(out: &mut String, r: &Round)
    ensures
        final(out)@ == old(out)@ + round_json(r@),
{
    out.append("{\"round_number\":");
    push_decimal(out, r.round_number as i64);
    out.append(",\"player1_choice\":");
    push_opt_quoted(out, &r.player1_choice);
    out.append(",\"player2_choice\":");
    push_opt_quoted(out, &r.player2_choice);
    out.append(",\"winner\":");
    push_opt_quoted(out, &r.winner);
    out.append("}");
    assert(out@ =~= old(out)@ + round_json(r@));
}

/// The JSON array of a round log, as stored with the match.
pub fn encode_rounds(rounds: &Vec<Round>) -> (r: String)
    ensures
        r@ == rounds_json(rounds@),
{
    let mut out = String::from_str("[");
    let mut i: usize = 0;
    while i < rounds.len()
        invariant
            i <= rounds@.len(),
            out@ == "["@ + round_items(rounds@.take(i as int)),
        decreases rounds@.len() - i,
    {
        if i > 0 {
            out.append(",");
        }
        push_round(&mut out, &rounds[i]);
        proof {
            let t = rounds@.take(i + 1);
            assert(t.drop_last() =~= rounds@.take(i as int));
            assert(t.last() == rounds@[i as int]);
            if i == 0 {
                assert(round_items(rounds@.take(0)) =~= Seq::empty());
            }
        }
        assert(out@ =~= "["@ + round_items(rounds@.take(i + 1)));
        i = i + 1;
    }
    out.append("]");
    assert(rounds@.take(rounds@.len() as int) =~= rounds@);
    out
}

} // verus!
