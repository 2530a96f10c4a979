use rps_backend::matchmaking::{
    filler_session, match_found, JoinQueue, JoinResult, LeaveQueue, MatchmakingActor,
};
use rps_backend::protocol::ServerMessage;
use rps_backend::session::Participant;

fn join(id: &str, ranked: bool, is_guest: bool) -> JoinQueue {
    JoinQueue {
        user_id: id.to_string(),
        username: format!("name-{id}"),
        elo: 1000,
        ranked,
        is_guest,
    }
}

#[test]
fn second_join_of_same_id_is_refused() {
    let mut mm = MatchmakingActor::new();
    assert!(matches!(mm.join(join("a", true, false), 0), JoinResult::Queued { pairing: None }));
    assert!(matches!(mm.join(join("a", true, false), 10), JoinResult::AlreadyQueued));
    assert_eq!(mm.queue.len(), 1);
    assert_eq!(mm.queue[0].queued_at, 0);
}

#[test]
fn two_joins_pair_in_queue_order() {
    let mut mm = MatchmakingActor::new();
    mm.join(join("a", true, false), 0);
    match mm.join(join("b", true, false), 5) {
        JoinResult::Queued { pairing: Some(p) } => {
            assert_eq!(p.p1.user_id, "a");
            assert_eq!(p.p2.user_id, "b");
            assert!(p.ranked);
            let s = p.into_session();
            assert!(s.is_ranked);
            assert_eq!(s.p1.user_id, "a");
        }
        _ => panic!("expected a pairing"),
    }
    assert!(mm.queue.is_empty());
}

#[test]
fn ranked_needs_both_requests() {
    let mut mm = MatchmakingActor::new();
    mm.join(join("a", true, false), 0);
    match mm.join(join("b", false, false), 5) {
        JoinResult::Queued { pairing: Some(p) } => {
            assert!(!p.ranked);
            assert!(!p.into_session().is_ranked);
        }
        _ => panic!("expected a pairing"),
    }
}

#[test]
fn guest_pairing_is_unranked() {
    let mut mm = MatchmakingActor::new();
    mm.join(join("guest_1", true, true), 0);
    match mm.join(join("b", true, false), 5) {
        JoinResult::Queued { pairing: Some(p) } => assert!(!p.into_session().is_ranked),
        _ => panic!("expected a pairing"),
    }
}

#[test]
fn leave_is_idempotent() {
    let mut mm = MatchmakingActor::new();
    mm.join(join("a", true, false), 0);
    let leave = LeaveQueue { user_id: "a".to_string() };
    mm.leave(&leave);
    assert!(mm.queue.is_empty());
    mm.leave(&leave);
    assert!(mm.queue.is_empty());
    assert!(matches!(mm.join(join("a", true, false), 1), JoinResult::Queued { pairing: None }));
}

#[test]
fn filler_check_waits_for_the_deadline() {
    let mut mm = MatchmakingActor::new();
    mm.join(join("a", true, false), 1_000);
    assert!(mm.check_filler(&"a".to_string(), 3_999).is_none());
    assert_eq!(mm.queue.len(), 1);
    assert!(mm.check_filler(&"zzz".to_string(), 10_000).is_none());
    let p = mm.check_filler(&"a".to_string(), 4_000).expect("deadline passed");
    assert_eq!(p.user_id, "a");
    assert!(mm.queue.is_empty());
    assert!(mm.check_filler(&"a".to_string(), 9_000).is_none());
}

#[test]
fn filler_match_is_unranked_with_human_first() {
    let mut mm = MatchmakingActor::new();
    mm.join(join("a", true, false), 0);
    let p = mm.check_filler(&"a".to_string(), 3_000).unwrap();
    let filler = Participant {
        user_id: "ai-1".to_string(),
        username: "Robo".to_string(),
        elo: 1100,
        is_guest: false,
        is_filler: true,
    };
    let announce = match_found(&filler);
    assert!(matches!(&announce, ServerMessage::MatchFound { opponent, .. } if opponent.username == "Robo" && opponent.elo == 1100));
    let s = filler_session(p, filler);
    assert!(!s.is_ranked);
    assert_eq!(s.p1.user_id, "a");
    assert!(s.p2.is_filler);
}

#[test]
fn join_replies() {
    let mut mm = MatchmakingActor::new();
    let first = mm.join(join("a", true, false), 0);
    assert!(matches!(first.reply(), ServerMessage::Queued));
    let second = mm.join(join("a", true, false), 1);
    assert!(matches!(second.reply(), ServerMessage::Error { message } if message == "Already in queue"));
    assert_eq!(mm.queue.len(), 1);
}

#[test]
fn pairing_keeps_names_and_ratings() {
    let mut mm = MatchmakingActor::new();
    let mut a = join("a", true, false);
    a.elo = 1234;
    mm.join(a, 0);
    match mm.join(join("b", true, false), 1) {
        JoinResult::Queued { pairing: Some(p) } => {
            let s = p.into_session();
            assert_eq!(s.p1.username, "name-a");
            assert_eq!(s.p1.elo, 1234);
            assert_eq!(s.p2.username, "name-b");
            assert!(!s.p1.is_filler && !s.p2.is_filler);
        }
        _ => panic!("expected a pairing"),
    }
}
