//! Rules of the account and administrative endpoints: input validation,
//! login decisions, and which accounts an administrator may act on.
use vstd::prelude::*;
use crate::errors::AppError;
use crate::models::{PlatformStats, User};

verus! {

/// Fewest bytes in a username.
pub const USERNAME_MIN: usize = 3;

/// Most bytes in a username.
pub const USERNAME_MAX: usize = 20;

/// Fewest bytes in a password.
pub const PASSWORD_MIN: usize = 6;

/// Highest rating an administrator may set.
pub const ELO_MAX: i32 = 5000;

/// Most bytes in a ban reason.
pub const BAN_REASON_MAX: usize = 500;

/// Work factor of stored password hashes.
pub const BCRYPT_COST: u32 = 10;

#[derive(Clone, Debug)]
pub struct RegisterRequest {
    pub username: String,
    pub email: String,
    pub password: String,
}

#[derive(Clone, Debug)]
pub struct LoginRequest {
    pub email: String,
    pub password: String,
}

#[derive(Clone, Debug)]
pub struct GoogleCallbackQuery {
    pub code: String,
}

#[derive(Clone, Debug)]
pub struct ListUsersQuery {
    pub search: Option<String>,
    pub sort_by: Option<String>,
    pub page: Option<i32>,
    pub limit: Option<i32>,
}

#[derive(Clone, Debug)]
pub struct UpdateUserRequest {
    pub username: Option<String>,
    pub elo: Option<i32>,
    pub wins: Option<i32>,
    pub losses: Option<i32>,
    pub draws: Option<i32>,
}

#[derive(Clone, Debug)]
pub struct BanUserRequest {
    pub reason: String,
}

#[derive(Clone, Debug)]
pub struct AdminStatsResponse {
    pub stats: PlatformStats,
}

#[derive(Clone, Debug)]
pub struct AdminUsersResponse {
    pub users: Vec<User>,
    pub total: i64,
    pub page: i32,
    pub limit: i32,
}

/// Bytes that a character takes in UTF-8.
pub open spec fn utf8_width(c: char) -> int {
    let v = c as u32;
    if v < 0x80 {
        1
    } else if v < 0x800 {
        2
    } else if v < 0x10000 {
        3
    } else {
        4
    }
}

/// Length of a string in UTF-8 bytes.
pub open spec fn utf8_len(s: Seq<char>) -> int
    decreases s.len(),
{
    if s.len() == 0 {
        0
    } else {
        utf8_len(s.drop_last()) + utf8_width(s.last())
    }
}

proof fn lemma_utf8_len_prefix(s: Seq<char>, i: int)
    requires
        0 <= i <= s.len(),
    ensures
        utf8_len(s.take(i)) <= utf8_len(s),
    decreases s.len() - i,
{
    if i < s.len() {
        lemma_utf8_len_prefix(s, i + 1);
        assert(s.take(i + 1).drop_last() =~= s.take(i));
    } else {
        assert(s.take(i) =~= s);
    }
}

fn width_of(c: char) -> (r: usize)
    ensures
        r == utf8_width(c),
{
    let v = c as u32;
    if v < 0x80 {
        1
    } else if v < 0x800 {
        2
    } else if v < 0x10000 {
        3
    } else {
        4
    }
}

/// The UTF-8 length of `s` when it is at most `cap`; some number above
/// `cap` otherwise. Reads at most `cap + 1` characters.
fn utf8_len_upto(s: &str, cap: usize) -> (r: usize)
    requires
        cap <= 1000,
    ensures
        utf8_len(s@) <= cap ==> r == utf8_len(s@),
        utf8_len(s@) > cap ==> r > cap,
{
    let n = s.unicode_len();
    let mut i: usize = 0;
    let mut acc: usize = 0;
    while i < n && acc <= cap
        invariant
            n == s@.len(),
            i <= n,
            acc == utf8_len(s@.take(i as int)),
            acc <= cap + 4,
            cap <= 1000,
        decreases n - i,
    {
        let c = s.get_char(i);
        let w = width_of(c);
        assert(w <= 4);
        acc = acc + w;
        proof {
            assert(s@.take(i + 1).drop_last() =~= s@.take(i as int));
        }
        i = i + 1;
    }
    proof {
        lemma_utf8_len_prefix(s@, i as int);
        if i == n {
            assert(s@.take(i as int) =~= s@);
        }
    }
    acc
}

/// A bad-request error carrying `m`.
pub open spec fn bad_request(r: Result<(), AppError>, m: Seq<char>) -> bool {
    r matches Err(AppError::BadRequest(x)) && x@ == m
}

/// Registration is refused for a username outside 3 to 20 bytes, then for
/// a password under 6 bytes.
pub fn validate_registration(req: &RegisterRequest) -> (r: Result<(), AppError>)
    ensures
        if utf8_len(req.username@) < USERNAME_MIN || utf8_len(req.username@)
            > USERNAME_MAX {
            bad_request(r, "Username must be between 3 and 20 characters"@)
        } else if utf8_len(req.password@) < PASSWORD_MIN {
            bad_request(r, "Password must be at least 6 characters"@)
        } else {
            r is Ok
        },
{
    let ulen = utf8_len_upto(req.username.as_str(), USERNAME_MAX);
    if ulen < USERNAME_MIN || ulen > USERNAME_MAX {
        return Err(
            AppError::BadRequest(String::from_str("Username must be between 3 and 20 characters")),
        );
    }
    if utf8_len_upto(req.password.as_str(), PASSWORD_MIN) < PASSWORD_MIN {
        return Err(
            AppError::BadRequest(String::from_str("Password must be at least 6 characters")),
        );
    }
    Ok(())
}

/// Relies on `bcrypt::hash` with cost 10: a salted hash of the password,
/// or the library's error in words. The salt is random; `bcrypt::verify`
/// accepts the password against the hash.
#[verifier::external_body]
fn hash_password(password: &str) -> (r: Result<String, String>)
    ensures
        r is Ok ==> bcrypt_matches(password@, r->Ok_0@),
{
    bcrypt::hash(password, BCRYPT_COST).map_err(|e| e.to_string())
}

/// Validates a registration and hashes its password. A failed hash is an
/// internal error.
pub fn prepare_registration(req: &RegisterRequest) -> (r: Result<String, AppError>)
    ensures
        match validate_registration_spec(req) {
            Some(m) => r matches Err(AppError::BadRequest(x)) && x@ == m,
            None => r is Ok || r matches Err(AppError::Internal(_)),
        },
        r matches Ok(h) ==> bcrypt_matches(req.password@, h@),
{
    match validate_registration(req) {
        Err(e) => Err(e),
        Ok(()) => match hash_password(req.password.as_str()) {
            Ok(h) => Ok(h),
            Err(e) => Err(AppError::Internal(e)),
        },
    }
}

/// The message of the first registration rule that `req` breaks.
pub open spec fn validate_registration_spec(req: &RegisterRequest) -> Option<Seq<char>> {
    if utf8_len(req.username@) < USERNAME_MIN || utf8_len(req.username@)
        > USERNAME_MAX {
        Some("Username must be between 3 and 20 characters"@)
    } else if utf8_len(req.password@) < PASSWORD_MIN {
        Some("Password must be at least 6 characters"@)
    } else {
        None
    }
}

/// Whether a password matches a stored hash.
pub uninterp spec fn bcrypt_matches(password: Seq<char>, hash: Seq<char>) -> bool;

/// Relies on `bcrypt::verify`: whether the password matches the hash, or
/// the library's error in words when the hash cannot be read.
#[verifier::external_body]
fn verify_password(password: &str, hash: &str) -> (r: Result<bool, String>)
    ensures
        r matches Ok(b) ==> b == bcrypt_matches(password@, hash@),
{
    bcrypt::verify(password, hash).map_err(|e| e.to_string())
}

/// The answer to a password check's result: a match logs in, a mismatch
/// is refused, a failed check is an internal error.
pub fn password_verdict(check: Result<bool, String>) -> (r: Result<(), AppError>)
    ensures
        match check {
            Ok(true) => r is Ok,
            Ok(false) => r matches Err(AppError::Unauthorized(m)) && m@
                == "Invalid email or password"@,
            Err(e) => r matches Err(AppError::Internal(m)) && m@ == e@,
        },
{
    match check {
        Ok(true) => Ok(()),
        Ok(false) => Err(AppError::Unauthorized(String::from_str("Invalid email or password"))),
        Err(e) => Err(AppError::Internal(e)),
    }
}

/// The login decision for a found user: a banned account is refused with
/// its reason, an account without a password signs in with Google only,
/// and otherwise the password must match the stored hash.
pub fn check_login(user: &User, password: &str) -> (r: Result<(), AppError>)
    ensures
        user.is_banned ==> (r matches Err(AppError::Unauthorized(m)) && m@ == "Account banned: "@
            + match user.banned_reason {
            Some(x) => x@,
            None => "No reason provided"@,
        }),
        !user.is_banned && user.password_hash is None ==> (r matches Err(
            AppError::Unauthorized(m),
        ) && m@ == "This account uses Google sign-in"@),
        r is Ok ==> (!user.is_banned && (user.password_hash matches Some(h) && bcrypt_matches(
            password@,
            h@,
        ))),
        !user.is_banned ==> (user.password_hash matches Some(h) ==> (r is Ok || r matches Err(
            AppError::Internal(_),
        ) || (r matches Err(AppError::Unauthorized(m)) && m@ == "Invalid email or password"@
            && !bcrypt_matches(password@, h@)))),
{
    if user.is_banned {
        let mut m = String::from_str("Account banned: ");
        match &user.banned_reason {
            Some(x) => m.append(x.as_str()),
            None => m.append("No reason provided"),
        }
        return Err(AppError::Unauthorized(m));
    }
    match &user.password_hash {
        None => Err(AppError::Unauthorized(String::from_str("This account uses Google sign-in"))),
        Some(h) => password_verdict(verify_password(password, h.as_str())),
    }
}

/// Administrative endpoints answer only administrators.
pub fn require_admin(is_admin: bool) -> (r: Result<(), AppError>)
    ensures
        is_admin ==> r is Ok,
        !is_admin ==> (r matches Err(AppError::Unauthorized(m)) && m@ == "Admin access required"@),
{
    if is_admin {
        Ok(())
    } else {
        Err(AppError::Unauthorized(String::from_str("Admin access required")))
    }
}

/// What an administrator does to another account.
#[derive(Clone, Copy, Debug, PartialEq, Eq, Structural)]
pub enum AdminAction {
    Edit,
    Ban,
    Delete,
}

/// An administrator may not act on their own account.
pub fn check_not_self(action: AdminAction, actor_id: &String, target_id: &String) -> (r: Result<
    (),
    AppError,
>)
    ensures
        actor_id@ != target_id@ ==> r is Ok,
        actor_id@ == target_id@ ==> bad_request(
            r,
            match action {
                AdminAction::Edit => "Cannot edit your own account"@,
                AdminAction::Ban => "Cannot ban yourself"@,
                AdminAction::Delete => "Cannot delete yourself"@,
            },
        ),
{
    if *actor_id == *target_id {
        let m = match action {
            AdminAction::Edit => String::from_str("Cannot edit your own account"),
            AdminAction::Ban => String::from_str("Cannot ban yourself"),
            AdminAction::Delete => String::from_str("Cannot delete yourself"),
        };
        Err(AppError::BadRequest(m))
    } else {
        Ok(())
    }
}

/// An administrator may not act on another administrator.
pub fn check_target_not_admin(action: AdminAction, target_is_admin: bool) -> (r: Result<
    (),
    AppError,
>)
    ensures
        !target_is_admin ==> r is Ok,
        target_is_admin ==> bad_request(
            r,
            match action {
                AdminAction::Edit => "Cannot edit admin accounts"@,
                AdminAction::Ban => "Cannot ban admin accounts"@,
                AdminAction::Delete => "Cannot delete admin accounts"@,
            },
        ),
{
    if target_is_admin {
        let m = match action {
            AdminAction::Edit => String::from_str("Cannot edit admin accounts"),
            AdminAction::Ban => String::from_str("Cannot ban admin accounts"),
            AdminAction::Delete => String::from_str("Cannot delete admin accounts"),
        };
        Err(AppError::BadRequest(m))
    } else {
        Ok(())
    }
}

/// Only a banned account can be unbanned.
pub fn check_unban(is_banned: bool) -> (r: Result<(), AppError>)
    ensures
        is_banned ==> r is Ok,
        !is_banned ==> bad_request(r, "User is not banned"@),
{
    if is_banned {
        Ok(())
    } else {
        Err(AppError::BadRequest(String::from_str("User is not banned")))
    }
}

/// Whether a character is a letter or a digit in the Unicode sense.
pub uninterp spec fn alphanumeric(c: char) -> bool;

/// Relies on `char::is_alphanumeric`: Unicode's alphabetic or numeric
/// property.
#[verifier::external_body]
fn is_alphanumeric(c: char) -> (r: bool)
    ensures
        r == alphanumeric(c),
{
    c.is_alphanumeric()
}

/// Whether a username holds only letters, digits and underscores.
pub open spec fn username_chars_ok(s: Seq<char>) -> bool {
    forall|i: int| 0 <= i < s.len() ==> alphanumeric(s[i]) || s[i] == '_'
}

fn username_chars_valid(s: &str) -> (r: bool)
    ensures
        r == username_chars_ok(s@),
{
    let n = s.unicode_len();
    let mut i: usize = 0;
    while i < n
        invariant
            n == s@.len(),
            i <= n,
            forall|j: int| 0 <= j < i ==> alphanumeric(s@[j]) || s@[j] == '_',
        decreases n - i,
    {
        let c = s.get_char(i);
        if !is_alphanumeric(c) && c != '_' {
            return false;
        }
        i = i + 1;
    }
    true
}

/// The message of the first rule that an account update breaks: a new
/// username of 3 to 20 bytes holding only letters, digits and underscores;
/// a rating from 0 to 5000; counters not negative.
pub open spec fn update_error(req: &UpdateUserRequest) -> Option<Seq<char>> {
    let name_error: Option<Seq<char>> = match req.username {
        Some(u) => if utf8_len(u@) < USERNAME_MIN || utf8_len(u@) > USERNAME_MAX {
            Some("Username must be between 3 and 20 characters"@)
        } else if !username_chars_ok(u@) {
            Some("Username can only contain alphanumeric characters and underscores"@)
        } else {
            None
        },
        None => None,
    };
    if name_error is Some {
        name_error
    } else if req.elo matches Some(e) && (e < 0 || e > ELO_MAX) {
        Some("Elo must be between 0 and 5000"@)
    } else if req.wins matches Some(w) && w < 0 {
        Some("Wins cannot be negative"@)
    } else if req.losses matches Some(l) && l < 0 {
        Some("Losses cannot be negative"@)
    } else if req.draws matches Some(d) && d < 0 {
        Some("Draws cannot be negative"@)
    } else {
        None
    }
}

/// Checks an account update against [`update_error`].
pub fn validate_user_update(req: &UpdateUserRequest) -> (r: Result<(), AppError>)
    ensures
        match update_error(req) {
            Some(m) => bad_request(r, m),
            None => r is Ok,
        },
{
    match &req.username {
        Some(u) => {
            let len = utf8_len_upto(u.as_str(), USERNAME_MAX);
            if len < USERNAME_MIN || len > USERNAME_MAX {
                return Err(
                    AppError::BadRequest(
                        String::from_str("Username must be between 3 and 20 characters"),
                    ),
                );
            }
            if !username_chars_valid(u.as_str()) {
                return Err(
                    AppError::BadRequest(
                        String::from_str(
                            "Username can only contain alphanumeric characters and underscores",
                        ),
                    ),
                );
            }
        },
        None => {},
    }
    if let Some(e) = req.elo {
        if e < 0 || e > ELO_MAX {
            return Err(AppError::BadRequest(String::from_str("Elo must be between 0 and 5000")));
        }
    }
    if let Some(w) = req.wins {
        if w < 0 {
            return Err(AppError::BadRequest(String::from_str("Wins cannot be negative")));
        }
    }
    if let Some(l) = req.losses {
        if l < 0 {
            return Err(AppError::BadRequest(String::from_str("Losses cannot be negative")));
        }
    }
    if let Some(d) = req.draws {
        if d < 0 {
            return Err(AppError::BadRequest(String::from_str("Draws cannot be negative")));
        }
    }
    Ok(())
}

/// A string with surrounding whitespace removed.
pub uninterp spec fn trimmed(s: Seq<char>) -> Seq<char>;

/// Relies on `str::trim`: the string without leading and trailing Unicode
/// whitespace.
#[verifier::external_body]
fn trim_text(s: &str) -> (r: String)
    ensures
        r@ == trimmed(s@),
{
    s.trim().to_string()
}

/// A ban needs a reason that is not blank and is at most 500 bytes.
pub fn validate_ban_reason(reason: &str) -> (r: Result<(), AppError>)
    ensures
        if trimmed(reason@).len() == 0 {
            bad_request(r, "Ban reason is required"@)
        } else if utf8_len(reason@) > BAN_REASON_MAX {
            bad_request(r, "Ban reason must be less than 500 characters"@)
        } else {
            r is Ok
        },
{
    let t = trim_text(reason);
    if t.as_str().is_empty() {
        return Err(AppError::BadRequest(String::from_str("Ban reason is required")));
    }
    if utf8_len_upto(reason, BAN_REASON_MAX) > BAN_REASON_MAX {
        return Err(
            AppError::BadRequest(String::from_str("Ban reason must be less than 500 characters")),
        );
    }
    Ok(())
}

/// The ordering of a user listing, as SQL: by rating, by creation time or
/// by games played, highest or newest first; by creation time otherwise.
pub open spec fn listing_order_spec(sort_by: Option<Seq<char>>) -> Seq<char> {
    match sort_by {
        Some(k) => if k == "elo"@ {
            "elo DESC"@
        } else if k == "total_games"@ {
            "total_games DESC"@
        } else {
            "created_at DESC"@
        },
        None => "created_at DESC"@,
    }
}

pub fn listing_order(sort_by: &Option<String>) -> (r: &'static str)
    ensures
        r@ == listing_order_spec(crate::models::opt_str(*sort_by)),
{
    match sort_by {
        Some(k) => if crate::protocol::str_equal(k.as_str(), "elo") {
            "elo DESC"
        } else if crate::protocol::str_equal(k.as_str(), "total_games") {
            "total_games DESC"
        } else {
            "created_at DESC"
        },
        None => "created_at DESC",
    }
}

/// The search term of a user listing: none when absent or empty.
pub fn search_term(search: &Option<String>) -> (r: Option<String>)
    ensures
        match *search {
            Some(s) => if s@.len() == 0 {
                r is None
            } else {
                r == Some(s)
            },
            None => r is None,
        },
{
    match search {
        Some(s) => if s.as_str().is_empty() {
            None
        } else {
            Some(s.clone())
        },
        None => None,
    }
}

/// The page of a user listing: page from 1 (default 1), limit from 1 to
/// 100 (default 20), and the offset of the page's first user.
pub fn paging(query: &ListUsersQuery) -> (r: (i32, i32, i64))
    ensures
        r.0 == match query.page {
            Some(p) => if p < 1 {
                1
            } else {
                p
            },
            None => 1,
        },
        r.1 == match query.limit {
            Some(l) => if l < 1 {
                1
            } else if l > 100 {
                100
            } else {
                l
            },
            None => 20,
        },
        r.2 == (r.0 - 1) * r.1,
{
    let page: i32 = match query.page {
        Some(p) => if p < 1 {
            1
        } else {
            p
        },
        None => 1,
    };
    let limit: i32 = match query.limit {
        Some(l) => if l < 1 {
            1
        } else if l > 100 {
            100
        } else {
            l
        },
        None => 20,
    };
    assert(0 <= (page as i64 - 1) * (limit as i64) <= (i32::MAX as i64) * 100) by (nonlinear_arith)
        requires
            1 <= page <= i32::MAX,
            1 <= limit <= 100,
    ;
    let offset = (page as i64 - 1) * (limit as i64);
    (page, limit, offset)
}

} // verus!
