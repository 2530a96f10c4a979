//! Records that the platform persists: users, matches, rounds and the
//! rating history.
use vstd::prelude::*;

verus! {

/// One round of a match as stored with the match record: the round number
/// (from 1), each side's move if any, and the winner tag (player one's id,
/// player two's id, or `draw`).
#[derive(Clone, Debug)]
pub struct Round {
    pub round_number: i32,
    pub player1_choice: Option<String>,
    pub player2_choice: Option<String>,
    pub winner: Option<String>,
}

pub struct RoundView {
    pub round_number: int,
    pub player1_choice: Option<Seq<char>>,
    pub player2_choice: Option<Seq<char>>,
    pub winner: Option<Seq<char>>,
}

pub open spec fn opt_str(o: Option<String>) -> Option<Seq<char>> {
    match o {
        Some(s) => Some(s@),
        None => None,
    }
}

impl View for Round {
    type V = RoundView;

    open spec fn view(&self) -> RoundView {
        RoundView {
            round_number: self.round_number as int,
            player1_choice: opt_str(self.player1_choice),
            player2_choice: opt_str(self.player2_choice),
            winner: opt_str(self.winner),
        }
    }
}

/// A user account as stored.
#[derive(Clone, Debug)]
pub struct User {
    pub id: String,
    pub username: String,
    pub email: String,
    pub password_hash: Option<String>,
    pub avatar_url: Option<String>,
    pub elo: i32,
    pub total_games: i32,
    pub wins: i32,
    pub losses: i32,
    pub draws: i32,
    pub created_at: String,
    pub updated_at: String,
    pub is_admin: bool,
    pub is_banned: bool,
    pub banned_at: Option<String>,
    pub banned_reason: Option<String>,
    /// A preseeded filler identity.
    pub is_ai: bool,
}

/// Win rate in whole percent, rounded half away from zero; 0 without
/// games.
pub open spec fn win_rate_spec(wins: int, total: int) -> int {
    if total > 0 {
        crate::rating::round_div(100 * wins, total)
    } else {
        0
    }
}

impl User {
    /// The share of games won, in whole percent, rounded half away from
    /// zero; 0 for a user without games.
    pub fn win_rate_percent(&self) -> (r: i64)
        ensures
            r == win_rate_spec(self.wins as int, self.total_games as int),
    {
        if self.total_games > 0 {
            let n = 100 * (self.wins as i64);
            let t = self.total_games as i64;
            if n >= 0 {
                (2 * n + t) / (2 * t)
            } else {
                -((-2 * n + t) / (2 * t))
            }
        } else {
            0
        }
    }
}

/// What others may see of a user.
#[derive(Clone, Debug)]
pub struct PublicUser {
    pub id: String,
    pub username: String,
    pub avatar_url: Option<String>,
    pub elo: i32,
    pub total_games: i32,
    pub wins: i32,
    pub losses: i32,
    pub draws: i32,
    pub is_admin: bool,
}

impl From<User> for PublicUser {
    fn from(u: User) -> (r: PublicUser)
        ensures
            r == (PublicUser {
                id: u.id,
                username: u.username,
                avatar_url: u.avatar_url,
                elo: u.elo,
                total_games: u.total_games,
                wins: u.wins,
                losses: u.losses,
                draws: u.draws,
                is_admin: u.is_admin,
            }),
    {
        PublicUser {
            id: u.id,
            username: u.username,
            avatar_url: u.avatar_url,
            elo: u.elo,
            total_games: u.total_games,
            wins: u.wins,
            losses: u.losses,
            draws: u.draws,
            is_admin: u.is_admin,
        }
    }
}

impl vstd::std_specs::convert::FromSpecImpl<User> for PublicUser {
    open spec fn obeys_from_spec() -> bool {
        true
    }

    open spec fn from_spec(u: User) -> PublicUser {
        PublicUser {
            id: u.id,
            username: u.username,
            avatar_url: u.avatar_url,
            elo: u.elo,
            total_games: u.total_games,
            wins: u.wins,
            losses: u.losses,
            draws: u.draws,
            is_admin: u.is_admin,
        }
    }
}

/// A match as stored.
#[derive(Clone, Debug)]
pub struct MatchRecord {
    pub id: String,
    pub player1_id: String,
    pub player2_id: String,
    pub winner_id: Option<String>,
    pub is_ranked: bool,
    pub player1_score: i32,
    pub player2_score: i32,
    pub rounds_json: String,
    pub player1_elo_before: Option<i32>,
    pub player1_elo_after: Option<i32>,
    pub player2_elo_before: Option<i32>,
    pub player2_elo_after: Option<i32>,
    pub status: String,
    pub created_at: String,
    pub finished_at: Option<String>,
}

/// One rating change of one user in one match.
#[derive(Clone, Debug)]
pub struct EloHistory {
    pub id: String,
    pub user_id: String,
    pub match_id: String,
    pub elo_before: i32,
    pub elo_after: i32,
    pub elo_change: i32,
    pub created_at: String,
}

impl EloHistory {
    /// A history entry; the change is the rating after minus the rating
    /// before.
    pub fn new(
        id: String,
        user_id: String,
        match_id: String,
        elo_before: i32,
        elo_after: i32,
        created_at: String,
    ) -> (r: EloHistory)
        requires
            i32::MIN <= elo_after - elo_before <= i32::MAX,
        ensures
            r.id == id,
            r.user_id == user_id,
            r.match_id == match_id,
            r.elo_before == elo_before,
            r.elo_after == elo_after,
            r.elo_change == elo_after - elo_before,
            r.created_at == created_at,
    {
        EloHistory {
            id,
            user_id,
            match_id,
            elo_before,
            elo_after,
            elo_change: elo_after - elo_before,
            created_at,
        }
    }
}

/// Counts shown on the administrative dashboard.
#[derive(Clone, Copy, Debug)]
pub struct PlatformStats {
    pub total_users: i64,
    pub active_users: i64,
    pub total_matches: i64,
    pub banned_users: i64,
}

} // verus!
