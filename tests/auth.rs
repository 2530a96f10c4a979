use rps_backend::auth::{
    bearer_token, extract_optional_user_from_query, guest_identity, new_guest, token_from_query,
};

fn create_token(user_id: &str, secret: &str) -> Result<String, jsonwebtoken::errors::Error> {
    let now = chrono::Utc::now().timestamp();
    let mut claims = serde_json::Map::new();
    claims.insert("sub".to_string(), serde_json::Value::from(user_id));
    claims.insert("iat".to_string(), serde_json::Value::from(now));
    claims.insert("exp".to_string(), serde_json::Value::from(now + 7 * 24 * 60 * 60));
    jsonwebtoken::encode(
        &jsonwebtoken::Header::default(),
        &serde_json::Value::Object(claims),
        &jsonwebtoken::EncodingKey::from_secret(secret.as_bytes()),
    )
}

#[test]
fn extract_optional_user_from_query_returns_user_id_for_valid_token() {
    let secret = "test-secret";
    let token = create_token("user-42", secret).expect("token should be created");

    let user_id = extract_optional_user_from_query(&format!("foo=bar&token={token}"), secret);

    assert_eq!(user_id.as_deref(), Some("user-42"));
}

#[test]
fn extract_optional_user_from_query_returns_none_for_missing_or_invalid_token() {
    let secret = "test-secret";
    let invalid = extract_optional_user_from_query("foo=bar", secret);
    assert!(invalid.is_none());

    let wrong_secret_token =
        create_token("user-42", "different-secret").expect("token should be created");
    let invalid = extract_optional_user_from_query(&format!("token={wrong_secret_token}"), secret);
    assert!(invalid.is_none());
}

#[test]
fn token_is_found_among_query_fields() {
    assert_eq!(token_from_query("token=abc").as_deref(), Some("abc"));
    assert_eq!(token_from_query("a=1&token=x=y&token=z").as_deref(), Some("x=y"));
    assert_eq!(token_from_query("token=&token=second").as_deref(), Some("second"));
    assert_eq!(token_from_query("tokens=abc"), None);
    assert_eq!(token_from_query("token"), None);
    assert_eq!(token_from_query(""), None);
    assert_eq!(token_from_query("x=1&&token=t"), Some("t".to_string()));
}

#[test]
fn bearer_prefix_is_stripped() {
    assert_eq!(bearer_token("Bearer abc.def").as_deref(), Some("abc.def"));
    assert_eq!(bearer_token("bearer abc"), None);
    assert_eq!(bearer_token("Bearer"), None);
    assert_eq!(bearer_token("Bearer ").as_deref(), Some(""));
}

#[test]
fn guest_identities() {
    let (id, name) = guest_identity("1234abcd-0000");
    assert_eq!(id, "guest_1234abcd-0000");
    assert_eq!(name, "Guest1234");
    let (id, name) = new_guest();
    assert!(id.starts_with("guest_"));
    assert_eq!(id.len(), 42);
    assert_eq!(name.len(), 9);
    assert_eq!(&name[5..], &id[6..10]);
    let (other, _) = new_guest();
    assert_ne!(id, other);
}
