use std::collections::HashMap;

use altreg::auth::User;
use altreg::error::ErrorKind;
use altreg::text::str_equal;
use altreg::token::{
    create_token, delete, get_user_tokens, holds_token, issue_token, token_key, ApiAuth, AuthError,
    IssuedToken, LookupAction, LookupEvent, StoredToken, TokenEntry, TokenLookup,
};
use sha2::{Digest, Sha256};

struct Stores {
    tokens: HashMap<Vec<u8>, TokenEntry>,
    users: HashMap<String, User>,
    asked: usize,
}

fn user(name: &str) -> User {
    User::new(name.to_string(), "hash".to_string(), false)
}

fn check(stores: &mut Stores, token: Option<&str>) -> Result<ApiAuth, AuthError> {
    let (mut lookup, mut action) = TokenLookup::begin(token);
    loop {
        let event = match action {
            LookupAction::FindToken { key } => {
                stores.asked += 1;
                LookupEvent::Token { entry: stores.tokens.get(&key).cloned() }
            }
            LookupAction::FindUser { username } => {
                stores.asked += 1;
                LookupEvent::User { user: stores.users.get(&username).cloned() }
            }
            LookupAction::Accept { auth } => return Ok(auth),
            LookupAction::Reject { error } => return Err(error),
        };
        let stepped = lookup.step(event);
        lookup = stepped.0;
        action = stepped.1;
    }
}

fn file(stores: &mut Stores, issued: &IssuedToken) {
    stores.tokens.insert(issued.key.clone(), issued.entry.clone());
}

#[test]
fn token_entry_has_its_parts() {
    let entry = TokenEntry::new("alice", "laptop");
    assert_eq!(entry.username(), "alice");
    assert_eq!(entry.label(), "laptop");
    assert!(entry.is("alice", "laptop"));
    assert!(!entry.is("alice", "desktop"));
    assert!(!entry.is("bob", "laptop"));
    assert!(entry == TokenEntry::new("alice", "laptop"));
    assert!(entry != TokenEntry::new("alice", "Laptop"));
    assert!(entry.clone() == entry);
}

#[test]
fn user_has_its_parts() {
    let user = User::new("alice".to_string(), "$argon2id$x".to_string(), true);
    assert_eq!(user.username(), "alice");
    assert_eq!(user.password(), "$argon2id$x");
    assert!(user.blocked());
    let copy = user.clone();
    assert_eq!(copy.username(), "alice");
    assert!(copy.blocked());
}

#[test]
fn texts_are_compared_whole() {
    assert!(str_equal("", ""));
    assert!(str_equal("latest", "latest"));
    assert!(!str_equal("latest", "lates"));
    assert!(!str_equal("latest", "latesT"));
    assert!(str_equal("日本", "日本"));
    assert!(!str_equal("日本", "日木"));
}

#[test]
fn tokens_are_written_in_bitcoins_base58() {
    let token = |secret: &[u8]| issue_token(&Vec::new(), "a", "b", secret).unwrap().token;
    assert_eq!(token(b""), "");
    assert_eq!(token(b"hello world"), "StV1DL6CwTryKyV");
    assert_eq!(token(&[0, 0, 1]), "112");
    assert_eq!(token_key("112"), Some(Sha256::digest([0, 0, 1]).to_vec()));
    // 0, O, I and l are no digits of base 58
    assert_eq!(token_key("0"), None);
    assert_eq!(token_key("O"), None);
    assert_eq!(token_key("I"), None);
    assert_eq!(token_key("l"), None);
    assert_eq!(token_key("hello world"), None);
}

#[test]
fn key_is_the_digest_of_the_decoded_token() {
    let key = token_key("StV1DL6CwTryKyV").unwrap();
    assert_eq!(key, Sha256::digest(b"hello world").to_vec());
    assert_eq!(key.len(), 32);
    assert!(token_key("not base 58!").is_none());
}

#[test]
fn issued_token_leads_to_its_key() {
    let secret = [7u8; 32];
    let issued = issue_token(&Vec::new(), "alice", "laptop", &secret).unwrap();
    assert_eq!(issued.key, Sha256::digest(secret).to_vec());
    assert_eq!(issued.token, bs58::encode(secret).into_string());
    assert!(issued.entry.is("alice", "laptop"));
    assert_eq!(token_key(&issued.token), Some(issued.key.clone()));
    // the key is not the secret, and the token is not the key
    assert_ne!(issued.key, secret);
    assert_eq!(bs58::decode(&issued.token).into_vec().unwrap(), secret);
}

#[test]
fn second_token_with_a_label_is_not_issued() {
    let held = vec![TokenEntry::new("alice", "laptop"), TokenEntry::new("bob", "ci")];
    assert!(holds_token(&held, "alice", "laptop"));
    assert!(!holds_token(&held, "alice", "ci"));
    assert!(issue_token(&held, "alice", "laptop", &[1u8; 32]).is_none());
    assert!(issue_token(&held, "bob", "ci", &[1u8; 32]).is_none());
    assert!(issue_token(&held, "alice", "ci", &[1u8; 32]).is_some());
    assert!(issue_token(&held, "bob", "laptop", &[1u8; 32]).is_some());
    assert!(matches!(create_token(&held, "alice", "laptop"), Ok(None)));
}

#[test]
fn created_tokens_are_fresh() {
    let first = create_token(&Vec::new(), "alice", "one").unwrap().unwrap();
    let second = create_token(&Vec::new(), "alice", "one").unwrap().unwrap();
    assert_ne!(first.token, second.token);
    assert_ne!(first.key, second.key);
    let secret = bs58::decode(&first.token).into_vec().unwrap();
    assert_eq!(secret.len(), 32);
    assert_eq!(first.key, Sha256::digest(&secret).to_vec());
    assert!(first.entry.is("alice", "one"));
}

#[test]
fn issued_token_resolves_to_its_user() {
    let mut stores = Stores { tokens: HashMap::new(), users: HashMap::new(), asked: 0 };
    stores.users.insert("alice".to_string(), user("alice"));
    stores.users.insert("bob".to_string(), user("bob"));
    let alice = create_token(&Vec::new(), "alice", "laptop").unwrap().unwrap();
    let bob = create_token(&Vec::new(), "bob", "laptop").unwrap().unwrap();
    file(&mut stores, &alice);
    file(&mut stores, &bob);

    let auth = check(&mut stores, Some(&alice.token)).unwrap();
    assert_eq!(auth.0.username(), "alice");
    assert_eq!(auth.0.label(), "laptop");
    assert_eq!(auth.1.username(), "alice");
    let auth = check(&mut stores, Some(&bob.token)).unwrap();
    assert_eq!(auth.1.username(), "bob");
}

#[test]
fn token_with_one_bit_flipped_is_turned_down() {
    let mut stores = Stores { tokens: HashMap::new(), users: HashMap::new(), asked: 0 };
    stores.users.insert("alice".to_string(), user("alice"));
    let issued = issue_token(&Vec::new(), "alice", "laptop", &[0x5au8; 32]).unwrap();
    file(&mut stores, &issued);
    assert!(check(&mut stores, Some(&issued.token)).is_ok());

    let chars: Vec<char> = issued.token.chars().collect();
    for at in 0..chars.len() {
        for bit in 0..7 {
            let mut flipped = chars.clone();
            flipped[at] = ((chars[at] as u8) ^ (1 << bit)) as char;
            let text: String = flipped.into_iter().collect();
            assert_ne!(text, issued.token);
            let error = check(&mut stores, Some(&text)).err().unwrap();
            assert_eq!(error, AuthError::Invalid);
        }
    }
}

#[test]
fn unknown_and_missing_tokens_are_turned_down() {
    let mut stores = Stores { tokens: HashMap::new(), users: HashMap::new(), asked: 0 };
    stores.users.insert("alice".to_string(), user("alice"));

    let error = check(&mut stores, None).err().unwrap();
    assert_eq!(error, AuthError::Missing);
    assert_eq!(error.message(), "missing authorization token");
    assert_eq!(error.status(), 403);
    assert_eq!(error.kind(), ErrorKind::Unauthenticated);
    assert_eq!(stores.asked, 0);

    let error = check(&mut stores, Some("not base 58!")).err().unwrap();
    assert_eq!(error, AuthError::Invalid);
    assert_eq!(error.message(), "invalid authorization token");
    assert_eq!(error.status(), 403);
    assert_eq!(stores.asked, 0);

    let error = check(&mut stores, Some("StV1DL6CwTryKyV")).err().unwrap();
    assert_eq!(error, AuthError::Invalid);
    assert_eq!(stores.asked, 1);
}

#[test]
fn token_of_a_user_that_is_gone_is_turned_down() {
    let mut stores = Stores { tokens: HashMap::new(), users: HashMap::new(), asked: 0 };
    let issued = issue_token(&Vec::new(), "ghost", "laptop", &[3u8; 32]).unwrap();
    file(&mut stores, &issued);
    let error = check(&mut stores, Some(&issued.token)).err().unwrap();
    assert_eq!(error, AuthError::Invalid);
    assert_eq!(stores.asked, 2);
}

#[test]
fn fault_of_the_store_turns_the_request_down() {
    let (lookup, action) = TokenLookup::begin(Some("StV1DL6CwTryKyV"));
    assert!(matches!(action, LookupAction::FindToken { .. }));
    let (lookup, action) = lookup.step(LookupEvent::Failed);
    assert!(matches!(action, LookupAction::Reject { error: AuthError::Invalid }));
    // and nothing revives it
    let (_, action) = lookup.step(LookupEvent::Token { entry: Some(TokenEntry::new("a", "b")) });
    assert!(matches!(action, LookupAction::Reject { error: AuthError::Invalid }));

    let (lookup, _) = TokenLookup::begin(Some("StV1DL6CwTryKyV"));
    let (lookup, action) = lookup.step(LookupEvent::Token { entry: Some(TokenEntry::new("a", "b")) });
    match action {
        LookupAction::FindUser { username } => assert_eq!(username, "a"),
        _ => panic!("the owner is looked for"),
    }
    // an answer out of turn
    let (_, action) = lookup.step(LookupEvent::Token { entry: Some(TokenEntry::new("a", "b")) });
    assert!(matches!(action, LookupAction::Reject { error: AuthError::Invalid }));
}

#[test]
fn tokens_of_a_user_are_picked_in_order() {
    let all = vec![
        TokenEntry::new("alice", "one"),
        TokenEntry::new("bob", "one"),
        TokenEntry::new("alice", "two"),
        TokenEntry::new("alicia", "one"),
        TokenEntry::new("alice", "three"),
    ];
    let owned = get_user_tokens(&all, "alice");
    let labels: Vec<&str> = owned.iter().map(|e| e.label()).collect();
    assert_eq!(labels, ["one", "two", "three"]);
    assert!(owned.iter().all(|e| e.username() == "alice"));
    assert!(get_user_tokens(&all, "carol").is_empty());
    assert!(get_user_tokens(&Vec::new(), "alice").is_empty());
}

#[test]
fn revoking_picks_exact_matches_only() {
    let stored = vec![
        StoredToken { key: vec![1], entry: TokenEntry::new("alice", "ci") },
        StoredToken { key: vec![2], entry: TokenEntry::new("bob", "ci") },
        StoredToken { key: vec![3], entry: TokenEntry::new("alice", "laptop") },
        StoredToken { key: vec![4, 4], entry: TokenEntry::new("alice", "ci") },
        StoredToken { key: vec![5], entry: TokenEntry::new("alice", "ci ") },
    ];
    assert_eq!(delete(&stored, "alice", "ci"), vec![vec![1], vec![4, 4]]);
    assert_eq!(delete(&stored, "bob", "ci"), vec![vec![2]]);
    assert!(delete(&stored, "bob", "laptop").is_empty());
    assert!(delete(&Vec::new(), "alice", "ci").is_empty());
}
