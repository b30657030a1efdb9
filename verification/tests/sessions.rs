use superoxide::database::user::UserDetails;
use superoxide::database::Database;
use superoxide::http_server::session_cookie;
use superoxide::state::ServerState;

const EMPTY_SHA256: [u8; 32] = [
    0xe3, 0xb0, 0xc4, 0x42, 0x98, 0xfc, 0x1c, 0x14, 0x9a, 0xfb, 0xf4, 0xc8, 0x99, 0x6f, 0xb9, 0x24,
    0x27, 0xae, 0x41, 0xe4, 0x64, 0x9b, 0x93, 0x4c, 0xa4, 0x95, 0x99, 0x1b, 0x78, 0x52, 0xb8, 0x55,
];

#[test]
fn token_hash_is_sha256() {
    assert_eq!(ServerState::hash_token_bytes(&[]), EMPTY_SHA256);
    let abc = ServerState::hash_token_bytes(b"abc");
    assert_eq!(abc[0], 0xba);
    assert_eq!(abc[31], 0xad);
}

#[test]
fn session_credentials_are_hex_token_and_hash_of_bytes() {
    let mut bytes = [0u8; 32];
    for (i, byte) in bytes.iter_mut().enumerate() {
        *byte = (i as u8) * 8;
    }
    bytes[31] = 0xff;
    let credentials = ServerState::session_credentials(bytes);
    assert_eq!(credentials.token.len(), 64);
    assert!(credentials.token.starts_with("0008101820"));
    assert!(credentials.token.ends_with("f0ff"));
    assert_eq!(credentials.token_hash, ServerState::hash_token_bytes(&bytes));
}

#[test]
fn generated_sessions_are_fresh_lowercase_hex() {
    let first = ServerState::generate_session_credentials();
    let second = ServerState::generate_session_credentials();
    assert_eq!(first.token.len(), 64);
    assert!(first
        .token
        .chars()
        .all(|c| c.is_ascii_digit() || ('a'..='f').contains(&c)));
    assert_ne!(first.token, second.token);
    assert_ne!(first.token_hash, second.token_hash);
}

#[test]
fn session_cookie_sets_the_token() {
    assert_eq!(
        session_cookie("0a1b"),
        "session=0a1b; HttpOnly; Path=/; SameSite=Lax"
    );
}

#[test]
fn revocation_took_effect_when_rows_were_deleted() {
    assert!(!Database::session_revoked(0));
    assert!(Database::session_revoked(1));
    assert!(Database::session_revoked(3));
}

#[test]
fn frontend_details_of_a_known_user() {
    let details = ServerState::frontend_user_details(Some(UserDetails {
        username: String::from("alice"),
    }));
    assert_eq!(details.ok().map(|d| d.username), Some(String::from("alice")));
}

#[test]
fn an_unknown_user_is_unauthorized() {
    let details = ServerState::frontend_user_details(None);
    assert_eq!(details.err().map(|e| e.status_code()), Some(401));
}
