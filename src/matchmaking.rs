//! The matchmaking queue: first come, first paired; a player left waiting
//! past the deadline is paired with a filler opponent.
use vstd::prelude::*;
use crate::protocol::{MessageView, OpponentInfo, ServerMessage};
use crate::session::{GameSessionActor, Participant};

verus! {

/// How long a player waits, in milliseconds, before a filler is considered.
pub const FILLER_WAIT_MS: u64 = 3000;

/// A request to enter the queue. Guests never ask for a ranked match.
#[derive(Clone, Debug)]
pub struct JoinQueue {
    pub user_id: String,
    pub username: String,
    pub elo: i32,
    pub ranked: bool,
    pub is_guest: bool,
}

/// A request to leave the queue.
#[derive(Clone, Debug)]
pub struct LeaveQueue {
    pub user_id: String,
}

/// A waiting player and when (in milliseconds) it was admitted.
#[derive(Clone, Debug)]
pub struct QueuedPlayer {
    pub user_id: String,
    pub username: String,
    pub elo: i32,
    pub ranked: bool,
    pub is_guest: bool,
    pub queued_at: u64,
}

/// Two players taken from the head of the queue, in queue order.
pub struct Pairing {
    pub p1: QueuedPlayer,
    pub p2: QueuedPlayer,
    /// Both asked for a ranked match.
    pub ranked: bool,
}

/// The answer to a join request.
pub enum JoinResult {
    /// The id is queued already: the queue is unchanged.
    AlreadyQueued,
    /// The player was admitted; the head of the queue may have been paired.
    Queued { pairing: Option<Pairing> },
}

impl JoinResult {
    /// The frame that answers the joining player: an error when the id is
    /// queued already, `queued` otherwise.
    pub fn reply(&self) -> (r: ServerMessage)
        ensures
            r@ == match self {
                JoinResult::AlreadyQueued => MessageView::Error { message: "Already in queue"@ },
                JoinResult::Queued { .. } => MessageView::Queued,
            },
    {
        match self {
            JoinResult::AlreadyQueued => ServerMessage::Error {
                message: String::from_str("Already in queue"),
            },
            JoinResult::Queued { .. } => ServerMessage::Queued,
        }
    }
}

pub open spec fn is_queued(q: Seq<QueuedPlayer>, id: Seq<char>) -> bool {
    exists|i: int| 0 <= i < q.len() && q[i].user_id@ == id
}

/// The queue's invariant: one entry per id, ratings not negative, and at
/// most one player waiting between events (two waiting are paired at once).
pub open spec fn queue_wf(q: Seq<QueuedPlayer>) -> bool {
    &&& q.len() <= 1
    &&& forall|i: int, j: int|
        0 <= i < q.len() && 0 <= j < q.len() && i != j ==> q[i].user_id@ != q[j].user_id@
    &&& forall|i: int| 0 <= i < q.len() ==> q[i].elo >= 0
}

pub open spec fn entry_of(msg: JoinQueue, now: u64) -> QueuedPlayer {
    QueuedPlayer {
        user_id: msg.user_id,
        username: msg.username,
        elo: msg.elo,
        ranked: msg.ranked,
        is_guest: msg.is_guest,
        queued_at: now,
    }
}

/// The queue after a join of `e`: unchanged if its id waits already;
/// otherwise `e` is appended and the two oldest entries leave as a pair if
/// there are two.
pub open spec fn after_join(q: Seq<QueuedPlayer>, e: QueuedPlayer) -> Seq<QueuedPlayer> {
    if is_queued(q, e.user_id@) {
        q
    } else {
        let q1 = q.push(e);
        if q1.len() >= 2 {
            q1.subrange(2, q1.len() as int)
        } else {
            q1
        }
    }
}

/// Whether entry `i` of `q` belongs to `id` and, at time `now`, has waited
/// at least the deadline.
pub open spec fn filler_due(q: Seq<QueuedPlayer>, id: Seq<char>, now: int, i: int) -> bool {
    &&& 0 <= i < q.len()
    &&& q[i].user_id@ == id
    &&& now - q[i].queued_at >= FILLER_WAIT_MS
}

/// The queue without the entries of `id`, the others kept in order.
pub open spec fn without(q: Seq<QueuedPlayer>, id: Seq<char>) -> Seq<QueuedPlayer>
    decreases q.len(),
{
    if q.len() == 0 {
        q
    } else {
        let rest = without(q.drop_last(), id);
        if q.last().user_id@ == id {
            rest
        } else {
            rest.push(q.last())
        }
    }
}

/// The singleton that holds the queue.
pub struct MatchmakingActor {
    pub queue: Vec<QueuedPlayer>,
}

impl MatchmakingActor {
    pub open spec fn wf(&self) -> bool {
        queue_wf(self.queue@)
    }

    pub fn new() -> (r: MatchmakingActor)
        ensures
            r.wf(),
            r.queue@.len() == 0,
    {
        MatchmakingActor { queue: Vec::new() }
    }

    fn position(&self, id: &String) -> (r: Option<usize>)
        ensures
            match r {
                Some(i) => i < self.queue@.len() && self.queue@[i as int].user_id@ == id@,
                None => !is_queued(self.queue@, id@),
            },
    {
        let mut i: usize = 0;
        while i < self.queue.len()
            invariant
                i <= self.queue@.len(),
                forall|j: int| 0 <= j < i ==> self.queue@[j].user_id@ != id@,
            decreases self.queue@.len() - i,
        {
            if self.queue[i].user_id == *id {
                return Some(i);
            }
            i = i + 1;
        }
        None
    }

    /// Admits `msg` at time `now` unless its id waits already; then pairs
    /// the two oldest entries if there are two. The pair is ranked when both
    /// asked for it.
    pub fn join(&mut self, msg: JoinQueue, now: u64) -> (r: JoinResult)
        requires
            old(self).wf(),
            msg.elo >= 0,
        ensures
            final(self).wf(),
            final(self).queue@ == after_join(old(self).queue@, entry_of(msg, now)),
            is_queued(old(self).queue@, msg.user_id@) <==> r is AlreadyQueued,
            ({
                let q1 = old(self).queue@.push(entry_of(msg, now));
                match r {
                    JoinResult::AlreadyQueued => true,
                    JoinResult::Queued { pairing } => if q1.len() >= 2 {
                        pairing matches Some(p) && p.p1 == q1[0] && p.p2 == q1[1] && p.ranked
                            == (q1[0].ranked && q1[1].ranked)
                    } else {
                        pairing is None
                    },
                }
            }),
    {
        if self.position(&msg.user_id).is_some() {
            return JoinResult::AlreadyQueued;
        }
        let entry = QueuedPlayer {
            user_id: msg.user_id,
            username: msg.username,
            elo: msg.elo,
            ranked: msg.ranked,
            is_guest: msg.is_guest,
            queued_at: now,
        };
        self.queue.push(entry);
        let ghost q1 = self.queue@;
        if self.queue.len() >= 2 {
            let p2 = self.queue.remove(1);
            let p1 = self.queue.remove(0);
            assert(self.queue@ =~= q1.subrange(2, q1.len() as int));
            let ranked = p1.ranked && p2.ranked;
            JoinResult::Queued { pairing: Some(Pairing { p1, p2, ranked }) }
        } else {
            JoinResult::Queued { pairing: None }
        }
    }

    /// Removes any entry of `msg.user_id`; nothing else changes.
    pub fn leave(&mut self, msg: &LeaveQueue)
        requires
            old(self).wf(),
        ensures
            final(self).wf(),
            final(self).queue@ == without(old(self).queue@, msg.user_id@),
    {
        let ghost q0 = self.queue@;
        proof {
            if q0.len() == 1 {
                assert(q0.drop_last() =~= Seq::<QueuedPlayer>::empty());
                assert(without(q0.drop_last(), msg.user_id@) =~= Seq::<QueuedPlayer>::empty());
                assert(q0.last() == q0[0]);
            }
        }
        match self.position(&msg.user_id) {
            Some(i) => {
                self.queue.remove(i);
                assert(self.queue@ =~= without(q0, msg.user_id@));
            },
            None => {
                proof {
                    if q0.len() == 1 {
                        assert(q0[0].user_id@ != msg.user_id@);
                        assert(Seq::<QueuedPlayer>::empty().push(q0[0]) =~= q0);
                    }
                }
            },
        }
    }

    /// The filler check of `user_id` at time `now`: if that player still
    /// waits and has waited at least the deadline, the entry leaves the
    /// queue and is returned to be paired with a filler. Otherwise nothing
    /// changes.
    pub fn check_filler(&mut self, user_id: &String, now: u64) -> (r: Option<QueuedPlayer>)
        requires
            old(self).wf(),
        ensures
            final(self).wf(),
            match r {
                Some(p) => exists|i: int|
                    filler_due(old(self).queue@, user_id@, now as int, i) && p == old(
                        self,
                    ).queue@[i] && final(self).queue@ == old(self).queue@.remove(i),
                None => final(self).queue@ == old(self).queue@ && !exists|i: int|
                    filler_due(old(self).queue@, user_id@, now as int, i),
            },
    {
        match self.position(user_id) {
            Some(i) => {
                let queued_at = self.queue[i].queued_at;
                if now >= queued_at && now - queued_at >= FILLER_WAIT_MS {
                    let p = self.queue.remove(i);
                    Some(p)
                } else {
                    proof {
                        assert forall|j: int|
                            !filler_due(old(self).queue@, user_id@, now as int, j) by {
                            if 0 <= j < self.queue@.len() && j != i {
                                assert(self.queue@.len() <= 1);
                            }
                        }
                    }
                    None
                }
            },
            None => None,
        }
    }
}

/// The participant that a queue entry becomes; queued players are never
/// fillers.
pub open spec fn participant_spec(p: QueuedPlayer) -> Participant {
    Participant {
        user_id: p.user_id,
        username: p.username,
        elo: p.elo,
        is_guest: p.is_guest,
        is_filler: false,
    }
}

pub fn participant_of(p: QueuedPlayer) -> (r: Participant)
    ensures
        r == participant_spec(p),
{
    Participant {
        user_id: p.user_id,
        username: p.username,
        elo: p.elo,
        is_guest: p.is_guest,
        is_filler: false,
    }
}

/// The frame that announces `opponent` to a side.
pub fn match_found(opponent: &Participant) -> (r: ServerMessage)
    ensures
        r@ == (MessageView::MatchFound {
            session_id: Seq::empty(),
            opponent_name: opponent.username@,
            opponent_elo: opponent.elo as int,
        }),
{
    ServerMessage::MatchFound {
        session_id: String::new(),
        opponent: OpponentInfo { username: opponent.username.clone(), elo: opponent.elo },
    }
}

impl Pairing {
    /// The session of a pair of humans: the older entry is player one.
    pub fn into_session(self) -> (r: GameSessionActor)
        requires
            self.p1.elo >= 0,
            self.p2.elo >= 0,
        ensures
            r.wf(),
            !r.finished,
            r.current_round == 1,
            r.p1 == participant_spec(self.p1),
            r.p2 == participant_spec(self.p2),
            r.is_ranked == (self.ranked && !self.p1.is_guest && !self.p2.is_guest),
    {
        GameSessionActor::new(participant_of(self.p1), participant_of(self.p2), self.ranked)
    }
}

/// The session of a waiting player and a filler: the human is player one
/// and the match is unranked.
pub fn filler_session(player: QueuedPlayer, filler: Participant) -> (r: GameSessionActor)
    requires
        player.elo >= 0,
        filler.elo >= 0,
        filler.is_filler,
    ensures
        r.wf(),
        !r.finished,
        r.current_round == 1,
        r.p1 == participant_spec(player),
        r.p2 == filler,
        !r.is_ranked,
{
    let ranked = player.ranked;
    GameSessionActor::new(participant_of(player), filler, ranked)
}

/// A second join from an id that the first join left waiting is refused,
/// leaves the queue as it was, and the id has exactly one entry.
pub proof fn second_join_refused(q: Seq<QueuedPlayer>, e1: QueuedPlayer, e2: QueuedPlayer)
    requires
        queue_wf(q),
        e1.elo >= 0,
        e1.user_id@ == e2.user_id@,
        is_queued(after_join(q, e1), e1.user_id@),
    ensures
        is_queued(after_join(q, e1), e2.user_id@),
        after_join(after_join(q, e1), e2) == after_join(q, e1),
        queue_wf(after_join(q, e1)),
{
    if !is_queued(q, e1.user_id@) {
        let q1 = q.push(e1);
        if q1.len() >= 2 {
            assert(q1.subrange(2, q1.len() as int).len() == 0);
        } else {
            assert(q.len() == 0);
        }
    }
}

} // verus!
