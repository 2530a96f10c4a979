//! Identity of a connecting client: the token in the upgrade query, and
//! fresh guest identities.
use vstd::prelude::*;
use crate::models::opt_str;

verus! {

/// The user a request acts for.
#[derive(Clone, Debug)]
pub struct AuthenticatedUser {
    pub user_id: String,
}

/// The claims that a bearer token carries.
#[derive(Clone, Debug)]
pub struct Claims {
    /// The user id.
    pub sub: String,
    /// Expiry, in seconds since the epoch.
    pub exp: usize,
    /// Issue time, in seconds since the epoch.
    pub iat: usize,
}

/// Whether `s[start..end]` is a query field `token=<value>` with a
/// non-empty value.
pub open spec fn is_token_field(s: Seq<char>, start: int, end: int) -> bool {
    &&& end - start > 6
    &&& s[start] == 't'
    &&& s[start + 1] == 'o'
    &&& s[start + 2] == 'k'
    &&& s[start + 3] == 'e'
    &&& s[start + 4] == 'n'
    &&& s[start + 5] == '='
}

/// Scans the `&`-separated fields of `s` from position `i`, inside the
/// field that began at `start`, for the first token field; yields its value.
pub open spec fn token_scan(s: Seq<char>, start: int, i: int) -> Option<Seq<char>>
    decreases s.len() - i,
{
    if i >= s.len() {
        if is_token_field(s, start, s.len() as int) {
            Some(s.subrange(start + 6, s.len() as int))
        } else {
            None
        }
    } else if s[i] == '&' {
        if is_token_field(s, start, i) {
            Some(s.subrange(start + 6, i))
        } else {
            token_scan(s, i + 1, i + 1)
        }
    } else {
        token_scan(s, start, i + 1)
    }
}

/// The value of the first `token=<value>` field of a query string whose
/// value is not empty.
pub open spec fn query_token(s: Seq<char>) -> Option<Seq<char>> {
    token_scan(s, 0, 0)
}

fn token_field(q: &str, start: usize, end: usize) -> (r: bool)
    requires
        start <= end <= q@.len(),
    ensures
        r == is_token_field(q@, start as int, end as int),
{
    end - start > 6 && q.get_char(start) == 't' && q.get_char(start + 1) == 'o' && q.get_char(
        start + 2,
    ) == 'k' && q.get_char(start + 3) == 'e' && q.get_char(start + 4) == 'n' && q.get_char(
        start + 5,
    ) == '='
}

/// The token that a connection upgrade's query string carries, if any.
pub fn token_from_query(query: &str) -> (r: Option<String>)
    ensures
        opt_str(r) == query_token(query@),
{
    let n = query.unicode_len();
    let mut start: usize = 0;
    let mut i: usize = 0;
    while i < n
        invariant
            start <= i <= n,
            n == query@.len(),
            query_token(query@) == token_scan(query@, start as int, i as int),
        decreases n - i,
    {
        if query.get_char(i) == '&' {
            if token_field(query, start, i) {
                return Some(String::from_str(query.substring_char(start + 6, i)));
            }
            start = i + 1;
        }
        i = i + 1;
    }
    if token_field(query, start, n) {
        Some(String::from_str(query.substring_char(start + 6, n)))
    } else {
        None
    }
}

/// The `sub` claim in a token's payload, when it is a string.
pub uninterp spec fn jwt_sub(token: Seq<char>) -> Option<Seq<char>>;

/// Relies on `jsonwebtoken::decode` with the default validation (HS256,
/// signature and expiry checked against the clock) and with `exp` and `sub`
/// required: the `sub` claim of the token's payload when the token passes,
/// nothing otherwise. Whether a token passes depends on the time.
#[verifier::external_body]
fn token_subject(token: &str, secret: &str) -> (r: Option<String>)
    ensures
        r is Some ==> jwt_sub(token@) == Some(r.unwrap()@),
{
    let mut validation = jsonwebtoken::Validation::default();
    validation.set_required_spec_claims(&["exp", "sub"]);
    let key = jsonwebtoken::DecodingKey::from_secret(secret.as_bytes());
    let data = jsonwebtoken::decode::<serde_json::Value>(token, &key, &validation).ok()?;
    data.claims.get("sub").and_then(|v| v.as_str()).map(|s| s.to_string())
}

/// The user id of the token in a connection upgrade's query string, when
/// there is a token and it is valid for `secret`; none means a guest.
pub fn extract_optional_user_from_query(query: &str, secret: &str) -> (r: Option<String>)
    ensures
        query_token(query@) is None ==> r is None,
        r matches Some(u) ==> (query_token(query@) matches Some(t) && jwt_sub(t) == Some(u@)),
{
    match token_from_query(query) {
        Some(token) => token_subject(token.as_str(), secret),
        None => None,
    }
}

/// The token of an `Authorization` header value: what follows `Bearer `.
pub fn bearer_token(header: &str) -> (r: Option<String>)
    ensures
        r matches Some(t) ==> header@ == "Bearer "@ + t@,
        r is None ==> !(header@.len() >= 7 && header@.take(7) == "Bearer "@),
{
    let prefix = "Bearer ";
    proof {
        reveal_strlit("Bearer ");
    }
    let n = header.unicode_len();
    if n < 7 {
        return None;
    }
    let head = header.substring_char(0, 7);
    if !crate::protocol::str_equal(head, prefix) {
        return None;
    }
    let rest = header.substring_char(7, n);
    assert(header@ =~= head@ + rest@);
    Some(String::from_str(rest))
}

/// Relies on `uuid::Uuid::new_v4` and its `Display`, which writes the
/// hyphenated lower-case form: 36 ASCII characters.
#[verifier::external_body]
fn fresh_uuid() -> (r: String)
    ensures
        r@.len() == 36,
        r.is_ascii(),
{
    uuid::Uuid::new_v4().to_string()
}

/// A guest identity from a fresh unique suffix: the id is `guest_` and the
/// suffix, the display name `Guest` and the suffix's first four characters.
pub fn guest_identity(suffix: &str) -> (r: (String, String))
    requires
        suffix.is_ascii(),
        suffix@.len() >= 4,
    ensures
        r.0@ == "guest_"@ + suffix@,
        r.1@ == "Guest"@ + suffix@.subrange(0, 4),
{
    let mut id = String::from_str("guest_");
    id.append(suffix);
    let mut name = String::from_str("Guest");
    name.append(suffix.substring_ascii(0, 4));
    (id, name)
}

/// A fresh guest identity, `(id, display name)`, unique per call.
pub fn new_guest() -> (r: (String, String))
    ensures
        exists|suffix: Seq<char>|
            suffix.len() == 36 && r.0@ == "guest_"@ + suffix && r.1@ == "Guest"@ + suffix.subrange(
                0,
                4,
            ),
{
    let suffix = fresh_uuid();
    guest_identity(suffix.as_str())
}

} // verus!
