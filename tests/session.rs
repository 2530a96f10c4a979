use rps_backend::protocol::Choice::{Paper, Rock, Scissors};
use rps_backend::protocol::{Choice, ServerMessage};
use rps_backend::rating::MatchOutcome;
use rps_backend::session::StoreOp;
use rps_backend::session::{
    determine_winner, GameResult, GameSessionActor, MatchStatus, Outbound, Participant,
    RoundWinner, SessionStep, Side,
};

fn human(id: &str, elo: i32) -> Participant {
    Participant {
        user_id: id.to_string(),
        username: id.to_uppercase(),
        elo,
        is_guest: false,
        is_filler: false,
    }
}

fn to(step: &SessionStep, side: Side) -> Vec<ServerMessage> {
    step.messages
        .iter()
        .filter(|o: &&Outbound| o.to == side)
        .map(|o| o.message.clone())
        .collect()
}

fn play(s: &mut GameSessionActor, a: &str, b: &str) -> SessionStep {
    let first = s.submit_choice(&s.p1.user_id.clone(), a);
    assert!(first.messages.len() == 1);
    s.submit_choice(&s.p2.user_id.clone(), b)
}

#[test]
fn winner_rules() {
    assert_eq!(determine_winner(None, None), RoundWinner::Draw);
    assert_eq!(determine_winner(Some(Rock), None), RoundWinner::Player1);
    assert_eq!(determine_winner(None, Some(Paper)), RoundWinner::Player2);
    assert_eq!(determine_winner(Some(Rock), Some(Rock)), RoundWinner::Draw);
    assert_eq!(determine_winner(Some(Rock), Some(Scissors)), RoundWinner::Player1);
    assert_eq!(determine_winner(Some(Paper), Some(Rock)), RoundWinner::Player1);
    assert_eq!(determine_winner(Some(Scissors), Some(Paper)), RoundWinner::Player1);
    assert_eq!(determine_winner(Some(Scissors), Some(Rock)), RoundWinner::Player2);
}

#[test]
fn start_announces_round_one() {
    let mut s = GameSessionActor::new(human("a", 1000), human("b", 1000), true);
    let step = s.start();
    assert_eq!(step.arm_timer, Some(1));
    assert!(matches!(to(&step, Side::One)[..], [ServerMessage::RoundStart { round: 1, timeout_secs: 15 }]));
    assert!(matches!(to(&step, Side::Two)[..], [ServerMessage::RoundStart { round: 1, timeout_secs: 15 }]));
}

#[test]
fn straight_two_nil() {
    let mut s = GameSessionActor::new(human("a", 1000), human("b", 1000), true);
    assert!(s.is_ranked);
    s.start();
    let r1 = play(&mut s, "rock", "scissors");
    assert!(matches!(&to(&r1, Side::One)[..], [ServerMessage::OpponentChose, ServerMessage::RoundResult { round: 1, winner, your_score: 1, opponent_score: 0, .. }, ServerMessage::RoundStart { round: 2, .. }] if winner == "you"));
    assert!(matches!(&to(&r1, Side::Two)[..], [ServerMessage::RoundResult { round: 1, winner, your_score: 0, opponent_score: 1, .. }, ServerMessage::RoundStart { round: 2, .. }] if winner == "opponent"));
    let r2 = play(&mut s, "paper", "rock");
    assert_eq!(to(&r2, Side::One).len(), 2);
    assert!(matches!(to(&r2, Side::One)[0], ServerMessage::OpponentChose));
    assert_eq!(to(&r2, Side::Two).len(), 1);
    assert!(s.finished);
    let st = r2.settlement.expect("match should be over");
    assert_eq!(st.status, MatchStatus::Completed);
    assert_eq!(st.outcome, MatchOutcome::Win);
    let done = st.settle(0, 0);
    assert_eq!((done.p1_elo_after, done.p2_elo_after), (1020, 980));
    assert!(done.write_history);
    assert_eq!(done.status, "completed");
    assert_eq!(done.winner_id.as_deref(), Some("a"));
    assert_eq!(done.p1_stats, Some(GameResult::Win));
    assert_eq!(done.p2_stats, Some(GameResult::Loss));
    assert!(matches!(&to(&SessionStep { messages: done.messages.clone(), arm_timer: None, settlement: None }, Side::One)[..],
        [ServerMessage::MatchComplete { result, your_score: 2, opponent_score: 0, elo_change: Some(20), new_elo: Some(1020) }] if result == "win"));
    assert!(matches!(&to(&SessionStep { messages: done.messages, arm_timer: None, settlement: None }, Side::Two)[..],
        [ServerMessage::MatchComplete { result, your_score: 0, opponent_score: 2, elo_change: Some(-20), new_elo: Some(980) }] if result == "loss"));
    assert_eq!(s.rounds.len(), 2);
}

#[test]
fn timeout_round_then_comeback() {
    let mut s = GameSessionActor::new(human("a", 1000), human("b", 1000), true);
    s.start();
    let t = s.round_timeout(1);
    assert!(matches!(&to(&t, Side::One)[..], [ServerMessage::RoundResult { your_choice, opponent_choice, winner, your_score: 0, opponent_score: 0, .. }, ServerMessage::RoundStart { round: 2, .. }]
        if your_choice == "none" && opponent_choice == "none" && winner == "draw"));
    let r2 = play(&mut s, "rock", "paper");
    assert!(matches!(&to(&r2, Side::Two)[..], [ServerMessage::RoundResult { winner, your_score: 1, opponent_score: 0, .. }, ..] if winner == "you"));
    let r3 = play(&mut s, "rock", "scissors");
    assert!(matches!(&to(&r3, Side::One)[..], [ServerMessage::OpponentChose, ServerMessage::RoundResult { your_score: 1, opponent_score: 1, .. }, ..]));
    let r4 = play(&mut s, "paper", "rock");
    let st = r4.settlement.expect("match should be over");
    assert_eq!((st.p1_score, st.p2_score), (2, 1));
    assert_eq!(st.outcome, MatchOutcome::Win);
    assert_eq!(s.rounds.len(), 4);
    assert_eq!(s.current_round, 4);
    assert_eq!(s.rounds[0].winner.as_deref(), Some("draw"));
    assert_eq!(s.rounds[1].winner.as_deref(), Some("b"));
    assert_eq!(s.rounds[1].player1_choice.as_deref(), Some("rock"));
}

#[test]
fn stale_timer_is_ignored() {
    let mut s = GameSessionActor::new(human("a", 1000), human("b", 1000), false);
    s.start();
    play(&mut s, "rock", "rock");
    let stale = s.round_timeout(1);
    assert!(stale.messages.is_empty() && stale.settlement.is_none() && stale.arm_timer.is_none());
    assert_eq!(s.current_round, 2);
}

#[test]
fn five_rounds_cap_a_drawn_match() {
    let mut s = GameSessionActor::new(human("a", 1000), human("b", 1000), false);
    s.start();
    for _ in 0..4 {
        let step = play(&mut s, "paper", "paper");
        assert!(step.settlement.is_none());
    }
    let last = play(&mut s, "rock", "rock");
    let st = last.settlement.expect("five rounds end the match");
    assert_eq!(st.outcome, MatchOutcome::Draw);
    let done = st.settle(3, 3);
    assert_eq!(done.winner_id, None);
    assert_eq!(done.p1_stats, Some(GameResult::Draw));
    assert!(!done.write_history);
    assert!(matches!(&done.messages[0].message, ServerMessage::MatchComplete { result, elo_change: None, new_elo: None, .. } if result == "draw"));
    assert_eq!(s.rounds.len(), 5);
}

#[test]
fn forfeit_on_disconnect() {
    let mut s = GameSessionActor::new(human("a", 1000), human("b", 1000), true);
    s.start();
    let step = s.disconnect(&"b".to_string());
    assert_eq!(step.messages.len(), 1);
    assert_eq!(step.messages[0].to, Side::One);
    assert!(matches!(step.messages[0].message, ServerMessage::OpponentDisconnected));
    let st = step.settlement.expect("forfeit settles");
    assert_eq!(st.status, MatchStatus::Forfeit);
    assert_eq!((st.p1_score, st.p2_score), (2, 0));
    let done = st.settle(0, 0);
    assert_eq!(done.status, "forfeit");
    assert_eq!(done.messages.len(), 1);
    assert_eq!(done.messages[0].to, Side::One);
    assert!(matches!(&done.messages[0].message, ServerMessage::MatchComplete { result, your_score: 2, opponent_score: 0, elo_change: Some(c), .. } if result == "win" && *c > 0));
    assert_eq!(done.p2_stats, Some(GameResult::Loss));
    // Exactly once: a second disconnect, a late move or timer does nothing.
    let again = s.disconnect(&"a".to_string());
    assert!(again.messages.is_empty() && again.settlement.is_none());
    let late = s.submit_choice(&"a".to_string(), "rock");
    assert!(late.messages.is_empty() && late.settlement.is_none());
    assert!(s.round_timeout(1).messages.is_empty());
}

#[test]
fn invalid_choice_is_dropped() {
    let mut s = GameSessionActor::new(human("a", 1000), human("b", 1000), true);
    s.start();
    let step = s.submit_choice(&"a".to_string(), "spock");
    assert!(step.messages.is_empty() && step.settlement.is_none());
    assert!(s.p1_choice.is_none());
    let stranger = s.submit_choice(&"zed".to_string(), "rock");
    assert!(stranger.messages.is_empty());
    let first = s.submit_choice(&"a".to_string(), "rock");
    assert_eq!(first.messages.len(), 1);
    assert_eq!(first.messages[0].to, Side::Two);
    assert!(matches!(first.messages[0].message, ServerMessage::OpponentChose));
    let twice = s.submit_choice(&"a".to_string(), "paper");
    assert!(twice.messages.is_empty());
    assert_eq!(s.p1_choice, Some(Choice::Rock));
}

#[test]
fn guests_and_fillers_are_never_ranked() {
    let mut guest = human("guest_x", 1000);
    guest.is_guest = true;
    let s = GameSessionActor::new(guest, human("b", 1000), true);
    assert!(!s.is_ranked);
    let mut filler = human("f", 1200);
    filler.is_filler = true;
    let mut s = GameSessionActor::new(human("a", 1000), filler, true);
    assert!(!s.is_ranked);
    s.start();
    let done = s.disconnect(&"a".to_string()).settlement.unwrap().settle(0, 0);
    assert!(!done.write_history);
    assert_eq!((done.p1_elo_after, done.p2_elo_after), (1000, 1200));
    assert_eq!(done.p1_stats, Some(GameResult::Loss));
    assert_eq!(done.p2_stats, None);
}

#[test]
fn counters_bump_once_per_human() {
    let mut s = GameSessionActor::new(human("a", 1000), human("b", 1000), false);
    s.start();
    play(&mut s, "rock", "paper");
    let st = play(&mut s, "rock", "paper").settlement.unwrap();
    let done = st.settle(0, 0);
    assert_eq!(done.p1_stats, Some(GameResult::Loss));
    assert_eq!(done.p2_stats, Some(GameResult::Win));
}

#[test]
fn store_plan_orders_writes() {
    let mut s = GameSessionActor::new(human("a", 1000), human("b", 1000), true);
    s.start();
    play(&mut s, "rock", "scissors");
    let done = play(&mut s, "rock", "scissors").settlement.unwrap().settle(0, 0);
    assert_eq!(
        done.store_plan(),
        vec![
            StoreOp::CreateMatch,
            StoreOp::FinishMatch,
            StoreOp::UpdateRating(Side::One),
            StoreOp::UpdateRating(Side::Two),
            StoreOp::AppendHistory(Side::One),
            StoreOp::AppendHistory(Side::Two),
            StoreOp::IncrementCounters(Side::One, GameResult::Win),
            StoreOp::IncrementCounters(Side::Two, GameResult::Loss),
        ]
    );
    let mut filler = human("f", 1000);
    filler.is_filler = true;
    let mut s = GameSessionActor::new(human("a", 1000), filler, true);
    s.start();
    let done = s.disconnect(&"f".to_string()).settlement.unwrap().settle(0, 0);
    assert_eq!(
        done.store_plan(),
        vec![
            StoreOp::CreateMatch,
            StoreOp::FinishMatch,
            StoreOp::IncrementCounters(Side::One, GameResult::Win),
        ]
    );
}

#[test]
fn completing_move_tells_the_first_mover() {
    let mut s = GameSessionActor::new(human("a", 1000), human("b", 1000), false);
    s.start();
    let first = s.submit_choice(&"b".to_string(), "rock");
    assert_eq!(first.messages.len(), 1);
    assert_eq!(first.messages[0].to, Side::One);
    let second = s.submit_choice(&"a".to_string(), "paper");
    assert_eq!(second.messages[0].to, Side::Two);
    assert!(matches!(second.messages[0].message, ServerMessage::OpponentChose));
    assert!(matches!(&to(&second, Side::Two)[..], [ServerMessage::OpponentChose, ServerMessage::RoundResult { round: 1, .. }, ServerMessage::RoundStart { round: 2, .. }]));
    assert!(matches!(&to(&second, Side::One)[..], [ServerMessage::RoundResult { round: 1, .. }, ServerMessage::RoundStart { round: 2, .. }]));
    assert_eq!(s.rounds[0].round_number, 1);
}
