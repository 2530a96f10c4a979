use rps_backend::connection::{invalid_frame, ConnectionAction, FrameAction, InboundFrame, PlayerWsActor};
use rps_backend::filler::{choice_from_index, AiPlayerActor, FillerReaction};
use rps_backend::protocol::{ClientMessage, OpponentInfo, ServerMessage};

fn conn(is_guest: bool) -> PlayerWsActor {
    PlayerWsActor::new("u1".to_string(), "Uno".to_string(), 1234, is_guest, 100)
}

#[test]
fn join_defaults_to_ranked() {
    let c = conn(false);
    match c.handle_client_message(ClientMessage::JoinQueue { ranked: None }) {
        ConnectionAction::Join(j) => {
            assert!(j.ranked);
            assert_eq!(j.user_id, "u1");
            assert_eq!(j.elo, 1234);
        }
        _ => panic!("expected a join"),
    }
    match c.handle_client_message(ClientMessage::JoinQueue { ranked: Some(false) }) {
        ConnectionAction::Join(j) => assert!(!j.ranked),
        _ => panic!("expected a join"),
    }
}

#[test]
fn guest_join_is_never_ranked() {
    let c = conn(true);
    match c.handle_client_message(ClientMessage::JoinQueue { ranked: Some(true) }) {
        ConnectionAction::Join(j) => {
            assert!(!j.ranked);
            assert!(j.is_guest);
        }
        _ => panic!("expected a join"),
    }
}

#[test]
fn choice_needs_a_session() {
    let mut c = conn(false);
    match c.handle_client_message(ClientMessage::Choice { choice: "rock".to_string() }) {
        ConnectionAction::Reply(ServerMessage::Error { message }) => assert_eq!(message, "Not in a game"),
        _ => panic!("expected an error"),
    }
    c.attach_session();
    match c.handle_client_message(ClientMessage::Choice { choice: "rock".to_string() }) {
        ConnectionAction::Choose(pc) => {
            assert_eq!(pc.user_id, "u1");
            assert_eq!(pc.choice, "rock");
        }
        _ => panic!("expected a move"),
    }
    assert!(matches!(c.handle_client_message(ClientMessage::LeaveQueue), ConnectionAction::Leave(l) if l.user_id == "u1"));
    assert!(matches!(invalid_frame(), ServerMessage::Error { message } if message == "Invalid message format"));
}

#[test]
fn liveness_timeout() {
    let mut c = conn(false);
    assert!(!c.heartbeat_expired(10_100));
    assert!(c.heartbeat_expired(10_101));
    c.record_activity(9_000);
    assert!(!c.heartbeat_expired(10_101));
}

#[test]
fn teardown_notifies_session_only_when_attached() {
    let mut c = conn(false);
    let (leave, gone) = c.teardown();
    assert_eq!(leave.user_id, "u1");
    assert!(gone.is_none());
    c.attach_session();
    let (_, gone) = c.teardown();
    assert_eq!(gone.expect("session is told").user_id, "u1");
}

#[test]
fn filler_plays_on_attach_and_after_match_found() {
    let mut f = AiPlayerActor::new("ai-7".to_string());
    assert!(f.make_random_choice().is_none());
    let start = ServerMessage::RoundStart { round: 1, timeout_secs: 15 };
    assert_eq!(f.handle(&start), FillerReaction::Ignore);
    let first = f.attach_session().expect("first attach plays at once");
    assert_eq!(first.user_id, "ai-7");
    assert!(["rock", "paper", "scissors"].contains(&first.choice.as_str()));
    assert!(f.attach_session().is_none());
    let found = ServerMessage::MatchFound {
        session_id: String::new(),
        opponent: OpponentInfo { username: "x".to_string(), elo: 1 },
    };
    assert_eq!(f.handle(&found), FillerReaction::Ignore);
    assert!(f.auto_play_enabled);
    assert_eq!(f.handle(&start), FillerReaction::PlayLater);
    assert_eq!(f.handle(&ServerMessage::OpponentChose), FillerReaction::Ignore);
    for _ in 0..30 {
        let c = f.make_random_choice().unwrap();
        assert!(["rock", "paper", "scissors"].contains(&c.choice.as_str()));
    }
}

#[test]
fn inbound_frames() {
    let mut c = conn(false);
    assert!(matches!(c.on_frame(InboundFrame::Ping, 500), FrameAction::Pong));
    assert_eq!(c.hb, 500);
    assert!(matches!(c.on_frame(InboundFrame::Pong, 600), FrameAction::Nothing));
    assert_eq!(c.hb, 600);
    assert!(matches!(c.on_frame(InboundFrame::ProtocolError, 700), FrameAction::Stop));
    assert_eq!(c.hb, 600);
    match c.on_frame(InboundFrame::Text(None), 800) {
        FrameAction::Act(ConnectionAction::Reply(ServerMessage::Error { message })) => {
            assert_eq!(message, "Invalid message format")
        }
        _ => panic!("expected an error reply"),
    }
    assert_eq!(c.hb, 800);
    assert!(matches!(
        c.on_frame(InboundFrame::Text(Some(ClientMessage::LeaveQueue)), 900),
        FrameAction::Act(ConnectionAction::Leave(_))
    ));
    assert!(matches!(c.on_frame(InboundFrame::Close, 950), FrameAction::Close));
    assert!(!c.heartbeat_expired(10_950));
}

#[test]
fn filler_moves_by_index() {
    use_index_mapping();
}

fn use_index_mapping() {
    let names = ["rock", "paper", "scissors"];
    for (i, name) in names.iter().enumerate() {
        assert_eq!(choice_from_index(i).label(), *name);
        let mut f = AiPlayerActor::new("ai".to_string());
        assert!(f.choice_with_index(i).is_none());
        let first = f.attach_session_with_index(i).expect("first attach plays");
        assert_eq!(first.choice, *name);
        assert!(f.attach_session_with_index(i).is_none());
        assert_eq!(f.choice_with_index(i).unwrap().choice, *name);
    }
}
