//! Bearer tokens. A token is thirty-two random bytes, handed to its owner
//! once, in base 58. The store keeps only the SHA-256 digest of the bytes,
//! as the key under which it files who the token belongs to.

use vstd::prelude::*;
use vstd::slice::*;
use crate::auth::{User, UserView};
use crate::digest::{sha256, sha256_digest};
use crate::entropy::random_bytes;
use crate::text::str_equal;

verus! {

/// Whom a token belongs to, and the label its owner gave it.
#[derive(Debug)]
pub struct TokenEntry {
    username: String,
    label: String,
}

/// The mathematical value of a [`TokenEntry`].
pub struct TokenEntryView {
    pub username: Seq<char>,
    pub label: Seq<char>,
}

impl View for TokenEntry {
    type V = TokenEntryView;

    closed spec fn view(&self) -> TokenEntryView {
        TokenEntryView { username: self.username@, label: self.label@ }
    }
}

impl DeepView for TokenEntry {
    type V = TokenEntryView;

    open spec fn deep_view(&self) -> TokenEntryView {
        self@
    }
}

impl TokenEntry {
    /// The entry of a token of `username` with the label `label`.
    pub fn new(username: &str, label: &str) -> (entry: TokenEntry)
        ensures
            entry@ == (TokenEntryView { username: username@, label: label@ }),
    {
        TokenEntry { username: username.to_owned(), label: label.to_owned() }
    }

    /// The name of the owner.
    pub fn username(&self) -> (username: &str)
        ensures
            username@ == self@.username,
    {
        self.username.as_str()
    }

    /// The label of the token.
    pub fn label(&self) -> (label: &str)
        ensures
            label@ == self@.label,
    {
        self.label.as_str()
    }

    /// Whether the entry is of this owner and has this label.
    pub fn is(&self, username: &str, label: &str) -> (same: bool)
        ensures
            same == (self@ == TokenEntryView { username: username@, label: label@ }),
    {
        str_equal(self.username.as_str(), username) && str_equal(self.label.as_str(), label)
    }
}

impl Clone for TokenEntry {
    fn clone(&self) -> (copy: Self)
        ensures
            copy@ == self@,
    {
        TokenEntry { username: self.username.clone(), label: self.label.clone() }
    }
}

impl PartialEq for TokenEntry {
    fn eq(&self, other: &TokenEntry) -> (same: bool) {
        self.username == other.username && self.label == other.label
    }
}

impl Eq for TokenEntry {

}

impl vstd::std_specs::cmp::PartialEqSpecImpl for TokenEntry {
    open spec fn obeys_eq_spec() -> bool {
        true
    }

    open spec fn eq_spec(&self, other: &TokenEntry) -> bool {
        self@ == other@
    }
}

/// The bearer of a token: the entry of the token, and its owner.
pub struct ApiAuth(pub TokenEntry, pub User);

/// The text of a token in base 58, as `bs58` writes it.
pub uninterp spec fn base58_encode(bytes: Seq<u8>) -> Seq<char>;

/// The bytes that a text in base 58 stands for, as `bs58` reads it; nothing
/// where the text is not base 58.
pub uninterp spec fn base58_decode(text: Seq<char>) -> Option<Seq<u8>>;

/// Writes bytes in base 58 with `bs58::encode`, in its default alphabet.
/// The contract claims that the text is a function of the bytes alone, and
/// that `bs58::decode` reads the same bytes back from it.
#[verifier::external_body]
pub(crate) fn encode_base58(bytes: &[u8]) -> (text: String)
    ensures
        text@ == base58_encode(bytes@),
        base58_decode(text@) == Some(bytes@),
{
    bs58::encode(bytes).into_string()
}

/// Reads a text in base 58 with `bs58::decode`, in its default alphabet.
/// The contract claims that the outcome is a function of the text alone.
#[verifier::external_body]
pub(crate) fn decode_base58(text: &str) -> (bytes: Option<Vec<u8>>)
    ensures
        match bytes {
            Some(bytes) => base58_decode(text@) == Some(bytes@),
            None => base58_decode(text@) is None,
        },
{
    bs58::decode(text).into_vec().ok()
}

/// The key under which the store files a token: the digest of the bytes
/// that the token stands for. A text that is not base 58 has no key.
pub open spec fn key_of(token: Seq<char>) -> Option<Seq<u8>> {
    match base58_decode(token) {
        Some(secret) => Some(sha256(secret)),
        None => None,
    }
}

/// Works out the key under which the store files a token.
pub fn token_key(token: &str) -> (key: Option<Vec<u8>>)
    ensures
        match key {
            Some(key) => key_of(token@) == Some(key@),
            None => key_of(token@) is None,
        },
{
    match decode_base58(token) {
        Some(secret) => Some(sha256_digest(secret.as_slice())),
        None => None,
    }
}

/// A token that was just issued.
pub struct IssuedToken {
    /// The key under which the store is to file the entry.
    pub key: Vec<u8>,
    /// The entry to file.
    pub entry: TokenEntry,
    /// The token itself, for its owner. It is kept nowhere.
    pub token: String,
}

/// Whether some entry is of this owner and has this label.
pub open spec fn has_token(entries: Seq<TokenEntryView>, username: Seq<char>, label: Seq<char>)
    -> bool {
    entries.contains(TokenEntryView { username, label })
}

/// Whether `issued` is the token that the secret bytes make for a user and
/// a label: filed under the digest of the bytes and handed out as their
/// base 58, so that the token leads back to its key.
pub open spec fn issued_from(
    issued: IssuedToken,
    username: Seq<char>,
    label: Seq<char>,
    secret: Seq<u8>,
) -> bool {
    &&& issued.key@ == sha256(secret)
    &&& issued.entry@ == TokenEntryView { username, label }
    &&& issued.token@ == base58_encode(secret)
    &&& key_of(issued.token@) == Some(issued.key@)
}

/// Whether the list holds an entry of this owner with this label.
pub fn holds_token(entries: &Vec<TokenEntry>, username: &str, label: &str) -> (held: bool)
    ensures
        held == has_token(entries.deep_view(), username@, label@),
{
    let ghost wanted = TokenEntryView { username: username@, label: label@ };
    let mut i: usize = 0;
    while i < entries.len()
        invariant
            i <= entries.len(),
            wanted == (TokenEntryView { username: username@, label: label@ }),
            forall|k: int| 0 <= k < i ==> entries.deep_view()[k] != wanted,
        decreases entries.len() - i,
    {
        if entries[i].is(username, label) {
            assert(entries.deep_view()[i as int] == wanted);
            return true;
        }
        i += 1;
    }
    false
}

/// Issues a token from the given secret bytes, unless the user has a token
/// with this label already: then no token is issued.
pub fn issue_token(entries: &Vec<TokenEntry>, username: &str, label: &str, secret: &[u8])
    -> (issued: Option<IssuedToken>)
    ensures
        issued is None <==> has_token(entries.deep_view(), username@, label@),
        issued matches Some(token) ==> issued_from(token, username@, label@, secret@),
{
    if holds_token(entries, username, label) {
        return None;
    }
    let key = sha256_digest(secret);
    let token = encode_base58(secret);
    Some(IssuedToken { key, entry: TokenEntry::new(username, label), token })
}

/// Why no token was created.
#[derive(Debug, Clone, Copy, PartialEq, Eq, Structural)]
pub enum IssueError {
    /// The random source of the operating system failed.
    NoRandomness,
}

/// Creates a token for a user, from thirty-two fresh random bytes. `entries`
/// are the entries of the tokens that the store holds. Where the user has a
/// token with this label already, no token is created: that is no failure,
/// and for the caller to tell the user.
pub fn create_token(entries: &Vec<TokenEntry>, username: &str, label: &str) -> (created: Result<
    Option<IssuedToken>,
    IssueError,
>)
    ensures
        has_token(entries.deep_view(), username@, label@) ==> created matches Ok(None),
        created matches Ok(Some(token)) ==> !has_token(entries.deep_view(), username@, label@)
            && exists|secret: Seq<u8>|
            secret.len() == 32 && #[trigger] issued_from(token, username@, label@, secret),
        created matches Ok(None) ==> has_token(entries.deep_view(), username@, label@),
{
    if holds_token(entries, username, label) {
        return Ok(None);
    }
    match random_bytes(32) {
        Some(secret) => {
            let issued = issue_token(entries, username, label, secret.as_slice());
            proof {
                if issued is Some {
                    assert(issued_from(issued.unwrap(), username@, label@, secret@));
                }
            }
            Ok(issued)
        },
        None => Err(IssueError::NoRandomness),
    }
}

/// The entries of one owner, in the order of the list.
pub open spec fn tokens_of(entries: Seq<TokenEntryView>, username: Seq<char>) -> Seq<
    TokenEntryView,
> {
    entries.filter(|entry: TokenEntryView| entry.username == username)
}

/// The tokens of a user, from the entries that the store holds.
pub fn get_user_tokens(entries: &Vec<TokenEntry>, username: &str) -> (owned: Vec<TokenEntry>)
    ensures
        owned.deep_view() == tokens_of(entries.deep_view(), username@),
{
    let ghost all = entries.deep_view();
    let ghost wanted = |entry: TokenEntryView| entry.username == username@;
    let mut owned: Vec<TokenEntry> = Vec::new();
    let mut i: usize = 0;
    proof {
        reveal(Seq::filter);
        assert(all.subrange(0, 0) =~= Seq::<TokenEntryView>::empty());
        assert(owned.deep_view() =~= Seq::<TokenEntryView>::empty());
    }
    while i < entries.len()
        invariant
            i <= entries.len(),
            all == entries.deep_view(),
            wanted == |entry: TokenEntryView| entry.username == username@,
            owned.deep_view() == all.subrange(0, i as int).filter(wanted),
        decreases entries.len() - i,
    {
        let ghost before = owned.deep_view();
        proof {
            reveal(Seq::filter);
            assert(all.subrange(0, i + 1).drop_last() =~= all.subrange(0, i as int));
            assert(all.subrange(0, i + 1).last() == entries[i as int]@);
        }
        if str_equal(entries[i].username(), username) {
            owned.push(entries[i].clone());
            assert(owned.deep_view() =~= before.push(entries[i as int]@));
        }
        i += 1;
    }
    assert(all.subrange(0, i as int) =~= all);
    owned
}

/// A token as the store files it.
pub struct StoredToken {
    /// The key: the digest of the token's bytes.
    pub key: Vec<u8>,
    /// The entry filed under it.
    pub entry: TokenEntry,
}

/// The mathematical value of a [`StoredToken`].
pub struct StoredTokenView {
    pub key: Seq<u8>,
    pub entry: TokenEntryView,
}

impl View for StoredToken {
    type V = StoredTokenView;

    open spec fn view(&self) -> StoredTokenView {
        StoredTokenView { key: self.key@, entry: self.entry@ }
    }
}

impl DeepView for StoredToken {
    type V = StoredTokenView;

    open spec fn deep_view(&self) -> StoredTokenView {
        self@
    }
}

/// The keys of the tokens of this owner with this label, in the order of the
/// list.
pub open spec fn keys_to_delete(stored: Seq<StoredTokenView>, username: Seq<char>, label: Seq<char>)
    -> Seq<Seq<u8>> {
    stored.filter(
        |token: StoredTokenView| token.entry == (TokenEntryView { username, label }),
    ).map_values(|token: StoredTokenView| token.key)
}

/// Revokes the tokens of a user with a label: picks, from all that the store
/// holds, the keys of those whose owner and label are exactly these. They
/// are the keys to delete.
pub fn delete(stored: &Vec<StoredToken>, username: &str, label: &str) -> (keys: Vec<Vec<u8>>)
    ensures
        keys.deep_view() == keys_to_delete(stored.deep_view(), username@, label@),
{
    let ghost all = stored.deep_view();
    let ghost wanted = |token: StoredTokenView|
        token.entry == (TokenEntryView { username: username@, label: label@ });
    let ghost key = |token: StoredTokenView| token.key;
    let mut keys: Vec<Vec<u8>> = Vec::new();
    let mut i: usize = 0;
    proof {
        reveal(Seq::filter);
        assert(all.subrange(0, 0) =~= Seq::<StoredTokenView>::empty());
        assert(keys.deep_view() =~= all.subrange(0, 0).filter(wanted).map_values(key));
    }
    while i < stored.len()
        invariant
            i <= stored.len(),
            all == stored.deep_view(),
            wanted == |token: StoredTokenView|
                token.entry == (TokenEntryView { username: username@, label: label@ }),
            key == |token: StoredTokenView| token.key,
            keys.deep_view() == all.subrange(0, i as int).filter(wanted).map_values(key),
        decreases stored.len() - i,
    {
        let ghost before = keys.deep_view();
        let ghost kept = all.subrange(0, i as int).filter(wanted);
        proof {
            reveal(Seq::filter);
            assert(all.subrange(0, i + 1).drop_last() =~= all.subrange(0, i as int));
            assert(all.subrange(0, i + 1).last() == stored[i as int]@);
        }
        if stored[i].entry.is(username, label) {
            let copy = stored[i].key.clone();
            assert(copy@ =~= stored[i as int].key@);
            assert(copy.deep_view() =~= stored[i as int]@.key);
            keys.push(copy);
            proof {
                assert(keys.deep_view() =~= before.push(stored[i as int]@.key));
                assert(kept.push(stored[i as int]@).map_values(key) =~= kept.map_values(key).push(
                    stored[i as int]@.key,
                ));
            }
        }
        i += 1;
    }
    assert(all.subrange(0, i as int) =~= all);
    keys
}

/// Why a request is not let through.
#[derive(Debug, Clone, Copy, PartialEq, Eq, Structural)]
pub enum AuthError {
    /// The request carries no token.
    Missing,
    /// The token is not base 58, or the store knows no such token, or its
    /// owner is no user any more, or the store could not be asked.
    Invalid,
}

impl AuthError {
    /// The family of this failure.
    pub fn kind(self) -> (kind: crate::error::ErrorKind)
        ensures
            kind == crate::error::ErrorKind::Unauthenticated,
    {
        crate::error::ErrorKind::Unauthenticated
    }

    /// The HTTP status that answers it.
    pub fn status(self) -> (status: u16)
        ensures
            status == 403,
    {
        403
    }

    /// The detail that the answer carries.
    pub fn message(self) -> (message: String)
        ensures
            message@ == match self {
                AuthError::Missing => "missing authorization token"@,
                AuthError::Invalid => "invalid authorization token"@,
            },
    {
        match self {
            AuthError::Missing => "missing authorization token".to_owned(),
            AuthError::Invalid => "invalid authorization token".to_owned(),
        }
    }
}

/// What the check of a token asks next.
pub enum LookupAction {
    /// Read the entry filed under `key` in the store of tokens.
    FindToken { key: Vec<u8> },
    /// Read the user of this name in the store of users.
    FindUser { username: String },
    /// Let the request through, as made by this bearer.
    Accept { auth: ApiAuth },
    /// Turn the request down, before anything is changed.
    Reject { error: AuthError },
}

/// The mathematical value of a [`LookupAction`].
pub enum LookupActionView {
    FindToken { key: Seq<u8> },
    FindUser { username: Seq<char> },
    Accept { entry: TokenEntryView, user: UserView },
    Reject { error: AuthError },
}

impl View for LookupAction {
    type V = LookupActionView;

    open spec fn view(&self) -> LookupActionView {
        match self {
            LookupAction::FindToken { key } => LookupActionView::FindToken { key: key@ },
            LookupAction::FindUser { username } => LookupActionView::FindUser {
                username: username@,
            },
            LookupAction::Accept { auth } => LookupActionView::Accept {
                entry: auth.0@,
                user: auth.1@,
            },
            LookupAction::Reject { error } => LookupActionView::Reject { error: *error },
        }
    }
}

/// What the check of a token is told.
pub enum LookupEvent {
    /// The store of tokens has this entry under the key, or none.
    Token { entry: Option<TokenEntry> },
    /// The store of users has this user of the name, or none.
    User { user: Option<User> },
    /// The store failed.
    Failed,
}

/// The mathematical value of a [`LookupEvent`].
pub enum LookupEventView {
    Token { entry: Option<TokenEntryView> },
    User { user: Option<UserView> },
    Failed,
}

impl View for LookupEvent {
    type V = LookupEventView;

    open spec fn view(&self) -> LookupEventView {
        match self {
            LookupEvent::Token { entry } => LookupEventView::Token { entry: entry.deep_view() },
            LookupEvent::User { user } => LookupEventView::User { user: user.deep_view() },
            LookupEvent::Failed => LookupEventView::Failed,
        }
    }
}

/// The check of one token: from the text that a request carries to the
/// bearer it stands for.
pub struct TokenLookup {
    /// The entry of the token, once the store has given it.
    entry: Option<TokenEntry>,
    /// Whether the check has come to its end.
    done: bool,
}

/// The mathematical value of a [`TokenLookup`].
pub struct TokenLookupView {
    pub entry: Option<TokenEntryView>,
    pub done: bool,
}

impl View for TokenLookup {
    type V = TokenLookupView;

    closed spec fn view(&self) -> TokenLookupView {
        TokenLookupView { entry: self.entry.deep_view(), done: self.done }
    }
}

impl TokenLookupView {
    /// The check at its end.
    pub open spec fn ended() -> TokenLookupView {
        TokenLookupView { entry: None, done: true }
    }

    /// The state and the first action for the token that a request carries,
    /// if it carries one.
    pub open spec fn first(token: Option<Seq<char>>) -> (TokenLookupView, LookupActionView) {
        match token {
            None => (Self::ended(), LookupActionView::Reject { error: AuthError::Missing }),
            Some(text) => match key_of(text) {
                None => (Self::ended(), LookupActionView::Reject { error: AuthError::Invalid }),
                Some(key) => (
                    TokenLookupView { entry: None, done: false },
                    LookupActionView::FindToken { key },
                ),
            },
        }
    }

    /// The state and the action that follow on an event. The entry that the
    /// store has under the key names the owner to look for; the user that
    /// the store has of that name makes the bearer. Whatever is missing, and
    /// whatever else happens, the request is turned down.
    pub open spec fn next(self, event: LookupEventView) -> (TokenLookupView, LookupActionView) {
        if self.done {
            (Self::ended(), LookupActionView::Reject { error: AuthError::Invalid })
        } else {
            match (self.entry, event) {
                (None, LookupEventView::Token { entry: Some(entry) }) => (
                    TokenLookupView { entry: Some(entry), done: false },
                    LookupActionView::FindUser { username: entry.username },
                ),
                (Some(entry), LookupEventView::User { user: Some(user) }) => (
                    Self::ended(),
                    LookupActionView::Accept { entry, user },
                ),
                _ => (Self::ended(), LookupActionView::Reject { error: AuthError::Invalid }),
            }
        }
    }
}

impl TokenLookup {
    /// Begins the check of the token that a request carries, if it carries
    /// one.
    pub fn begin(token: Option<&str>) -> (begun: (TokenLookup, LookupAction))
        ensures
            (begun.0@, begun.1@) == TokenLookupView::first(
                match token {
                    Some(text) => Some(text@),
                    None => None,
                },
            ),
    {
        match token {
            None => (
                TokenLookup { entry: None, done: true },
                LookupAction::Reject { error: AuthError::Missing },
            ),
            Some(text) => match token_key(text) {
                None => (
                    TokenLookup { entry: None, done: true },
                    LookupAction::Reject { error: AuthError::Invalid },
                ),
                Some(key) => (
                    TokenLookup { entry: None, done: false },
                    LookupAction::FindToken { key },
                ),
            },
        }
    }

    /// Takes what the store answered, and says what to do next.
    pub fn step(self, event: LookupEvent) -> (stepped: (TokenLookup, LookupAction))
        ensures
            (stepped.0@, stepped.1@) == self@.next(event@),
    {
        if self.done {
            return (
                TokenLookup { entry: None, done: true },
                LookupAction::Reject { error: AuthError::Invalid },
            );
        }
        match (self.entry, event) {
            (None, LookupEvent::Token { entry: Some(entry) }) => {
                let username = entry.username().to_owned();
                (TokenLookup { entry: Some(entry), done: false }, LookupAction::FindUser { username })
            },
            (Some(entry), LookupEvent::User { user: Some(user) }) => (
                TokenLookup { entry: None, done: true },
                LookupAction::Accept { auth: ApiAuth(entry, user) },
            ),
            _ => (
                TokenLookup { entry: None, done: true },
                LookupAction::Reject { error: AuthError::Invalid },
            ),
        }
    }
}

/// What a store of tokens and a store of users answer to an action of the
/// check.
pub open spec fn answer_of(
    tokens: Map<Seq<u8>, TokenEntryView>,
    users: Map<Seq<char>, UserView>,
    action: LookupActionView,
) -> LookupEventView {
    match action {
        LookupActionView::FindToken { key } => LookupEventView::Token {
            entry: if tokens.contains_key(key) {
                Some(tokens[key])
            } else {
                None
            },
        },
        LookupActionView::FindUser { username } => LookupEventView::User {
            user: if users.contains_key(username) {
                Some(users[username])
            } else {
                None
            },
        },
        _ => LookupEventView::Failed,
    }
}

/// How the check of a token ends against a store of tokens and a store of
/// users that answer without fault.
pub open spec fn verdict_of(
    tokens: Map<Seq<u8>, TokenEntryView>,
    users: Map<Seq<char>, UserView>,
    token: Option<Seq<char>>,
) -> LookupActionView {
    let (begun, asked) = TokenLookupView::first(token);
    if !(asked is FindToken) {
        asked
    } else {
        let (found, asked) = begun.next(answer_of(tokens, users, asked));
        if !(asked is FindUser) {
            asked
        } else {
            found.next(answer_of(tokens, users, asked)).1
        }
    }
}

/// The token that is issued to a user leads back to that user. Once the
/// entry of an issued token is filed under its key, the check of the token
/// lets the request through as made by the user it was issued to, as long as
/// that user exists.
pub proof fn law_issued_token_resolves(
    tokens: Map<Seq<u8>, TokenEntryView>,
    users: Map<Seq<char>, UserView>,
    issued: IssuedToken,
    username: Seq<char>,
    label: Seq<char>,
    secret: Seq<u8>,
)
    requires
        issued_from(issued, username, label, secret),
        users.contains_key(username),
    ensures
        verdict_of(tokens.insert(issued.key@, issued.entry@), users, Some(issued.token@)) == (
        LookupActionView::Accept { entry: issued.entry@, user: users[username] }),
{
}

/// A request is let through only as made by the owner of a token that the
/// store holds under the key of the text it carries, and only if that
/// owner is a user.
pub proof fn law_accept_needs_stored_token(
    tokens: Map<Seq<u8>, TokenEntryView>,
    users: Map<Seq<char>, UserView>,
    token: Option<Seq<char>>,
    entry: TokenEntryView,
    user: UserView,
)
    requires
        verdict_of(tokens, users, token) == (LookupActionView::Accept { entry, user }),
    ensures
        token is Some,
        key_of(token.unwrap()) is Some,
        tokens.contains_key(key_of(token.unwrap()).unwrap()),
        tokens[key_of(token.unwrap()).unwrap()] == entry,
        users.contains_key(entry.username),
        users[entry.username] == user,
{
}

} // verus!
