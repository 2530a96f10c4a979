use rps_backend::models::Round;
use rps_backend::protocol::{show_choice, Choice, OpponentInfo, ServerMessage};
use rps_backend::wire::{encode_message, encode_rounds, push_decimal};

#[test]
fn server_message_serializes_with_expected_tag() {
    let msg = ServerMessage::RoundResult {
        round: 2,
        your_choice: "paper".into(),
        opponent_choice: "rock".into(),
        winner: "you".into(),
        your_score: 2,
        opponent_score: 1,
    };

    let text = encode_message(&msg);
    let json: serde_json::Value = serde_json::from_str(&text).expect("valid json");

    assert_eq!(json["type"], "round_result");
    assert_eq!(json["round"], 2);
    assert_eq!(json["winner"], "you");
}

#[test]
fn frames_encode_exactly() {
    assert_eq!(encode_message(&ServerMessage::Queued), r#"{"type":"queued"}"#);
    assert_eq!(
        encode_message(&ServerMessage::RoundStart { round: 3, timeout_secs: 15 }),
        r#"{"type":"round_start","round":3,"timeout_secs":15}"#
    );
    assert_eq!(
        encode_message(&ServerMessage::MatchComplete {
            result: "loss".into(),
            your_score: 0,
            opponent_score: 2,
            elo_change: Some(-20),
            new_elo: Some(980),
        }),
        r#"{"type":"match_complete","result":"loss","your_score":0,"opponent_score":2,"elo_change":-20,"new_elo":980}"#
    );
    assert_eq!(
        encode_message(&ServerMessage::MatchComplete {
            result: "win".into(),
            your_score: 2,
            opponent_score: 1,
            elo_change: None,
            new_elo: None,
        }),
        r#"{"type":"match_complete","result":"win","your_score":2,"opponent_score":1}"#
    );
    assert_eq!(
        encode_message(&ServerMessage::MatchFound {
            session_id: String::new(),
            opponent: OpponentInfo { username: "Ann".into(), elo: 1000 },
        }),
        r#"{"type":"match_found","session_id":"","opponent":{"username":"Ann","elo":1000}}"#
    );
    assert_eq!(
        encode_message(&ServerMessage::OpponentDisconnected),
        r#"{"type":"opponent_disconnected"}"#
    );
    assert_eq!(encode_message(&ServerMessage::OpponentChose), r#"{"type":"opponent_chose"}"#);
}

#[test]
fn strings_are_escaped() {
    let text = encode_message(&ServerMessage::Error { message: "say \"hi\"\n".into() });
    assert_eq!(text, r#"{"type":"error","message":"say \"hi\"\n"}"#);
    let back: serde_json::Value = serde_json::from_str(&text).unwrap();
    assert_eq!(back["message"], "say \"hi\"\n");
}

#[test]
fn decimals() {
    let mut s = String::new();
    push_decimal(&mut s, 0);
    s.push(' ');
    push_decimal(&mut s, -2147483648);
    s.push(' ');
    push_decimal(&mut s, 9876543210);
    assert_eq!(s, "0 -2147483648 9876543210");
}

#[test]
fn round_log_encodes_as_array() {
    assert_eq!(encode_rounds(&vec![]), "[]");
    let rounds = vec![
        Round {
            round_number: 1,
            player1_choice: Some("rock".into()),
            player2_choice: None,
            winner: Some("p1".into()),
        },
        Round {
            round_number: 2,
            player1_choice: None,
            player2_choice: None,
            winner: Some("draw".into()),
        },
    ];
    let text = encode_rounds(&rounds);
    assert_eq!(
        text,
        r#"[{"round_number":1,"player1_choice":"rock","player2_choice":null,"winner":"p1"},{"round_number":2,"player1_choice":null,"player2_choice":null,"winner":"draw"}]"#
    );
    let parsed: serde_json::Value = serde_json::from_str(&text).unwrap();
    assert_eq!(parsed.as_array().unwrap().len(), 2);
}

#[test]
fn choice_names() {
    assert_eq!(Choice::parse("rock"), Some(Choice::Rock));
    assert_eq!(Choice::parse("paper"), Some(Choice::Paper));
    assert_eq!(Choice::parse("scissors"), Some(Choice::Scissors));
    assert_eq!(Choice::parse("Rock"), None);
    assert_eq!(Choice::parse("spock"), None);
    assert_eq!(show_choice(None), "none");
    assert_eq!(Choice::Scissors.label(), "scissors");
}
