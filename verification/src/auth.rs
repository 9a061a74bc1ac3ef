//! The users of the registry, and the check of a password against the hash
//! that is kept of it.

use argon2::PasswordHasher;
use argon2::PasswordVerifier;
use vstd::prelude::*;

verus! {

/// A user of the registry.
#[derive(Debug)]
pub struct User {
    username: String,
    /// The Argon2id hash of the password, in PHC form.
    password: String,
    blocked: bool,
}

/// The mathematical value of a [`User`].
pub struct UserView {
    pub username: Seq<char>,
    pub password: Seq<char>,
    pub blocked: bool,
}

impl View for User {
    type V = UserView;

    closed spec fn view(&self) -> UserView {
        UserView { username: self.username@, password: self.password@, blocked: self.blocked }
    }
}

impl DeepView for User {
    type V = UserView;

    open spec fn deep_view(&self) -> UserView {
        self@
    }
}

impl User {
    /// A user with the given name, hash of the password, and block.
    pub fn new(username: String, password: String, blocked: bool) -> (user: User)
        ensures
            user@ == (UserView { username: username@, password: password@, blocked }),
    {
        User { username, password, blocked }
    }

    /// The name of the user.
    pub fn username(&self) -> (username: &str)
        ensures
            username@ == self@.username,
    {
        self.username.as_str()
    }

    /// The hash that is kept of the user's password.
    pub fn password(&self) -> (password: &str)
        ensures
            password@ == self@.password,
    {
        self.password.as_str()
    }

    /// Whether the user is blocked.
    pub fn blocked(&self) -> (blocked: bool)
        ensures
            blocked == self@.blocked,
    {
        self.blocked
    }
}

impl Clone for User {
    fn clone(&self) -> (copy: Self)
        ensures
            copy@ == self@,
    {
        User {
            username: self.username.clone(),
            password: self.password.clone(),
            blocked: self.blocked,
        }
    }
}

/// What the check of a password against a hash comes to.
#[derive(Debug, Clone, Copy, PartialEq, Eq, Structural)]
pub enum PasswordCheck {
    /// The password is the one that was hashed.
    Match,
    /// The password is another.
    Mismatch,
    /// The text is no password hash.
    Malformed,
}

/// What `argon2` makes of a password and the text of a hash.
pub uninterp spec fn argon2_check(password: Seq<char>, hash: Seq<char>) -> PasswordCheck;

/// Checks a password with `argon2`: `PasswordHash::new` reads the hash, and
/// `Argon2::verify_password`, with the default parameters, hashes the
/// password as the hash says and compares in constant time. The contract
/// claims only that the answer is a function of the two texts.
#[verifier::external_body]
pub(crate) fn check_password(password: &str, hash: &str) -> (check: PasswordCheck)
    ensures
        check == argon2_check(password@, hash@),
{
    match argon2::PasswordHash::new(hash) {
        Ok(parsed) => match argon2::Argon2::default().verify_password(
            password.as_bytes(),
            &parsed,
        ) {
            Ok(()) => PasswordCheck::Match,
            Err(_) => PasswordCheck::Mismatch,
        },
        Err(_) => PasswordCheck::Malformed,
    }
}

/// How an attempt to log in ends.
#[derive(Debug, Clone, Copy, PartialEq, Eq, Structural)]
pub enum Login {
    /// The user is let in.
    Success,
    /// There is no user of that name.
    NoSuchUser,
    /// The hash that is kept for the user cannot be read.
    CorruptRecord,
    /// The password is wrong.
    IncorrectPassword,
    /// The password is right, but the user is blocked.
    Blocked,
}

/// How an attempt to log in ends, given the record of the user and what the
/// check of the password said. The checks are made in this order: the user
/// must exist, the hash must be readable, the password must match, and the
/// user must not be blocked.
pub open spec fn login_of(user: Option<UserView>, check: PasswordCheck) -> Login {
    match user {
        None => Login::NoSuchUser,
        Some(user) => match check {
            PasswordCheck::Malformed => Login::CorruptRecord,
            PasswordCheck::Mismatch => Login::IncorrectPassword,
            PasswordCheck::Match => if user.blocked {
                Login::Blocked
            } else {
                Login::Success
            },
        },
    }
}

/// Decides an attempt to log in from what the check of the password said.
pub fn decide_login(user: Option<&User>, check: PasswordCheck) -> (login: Login)
    ensures
        login == login_of(user.deep_view(), check),
{
    match user {
        None => Login::NoSuchUser,
        Some(user) => match check {
            PasswordCheck::Malformed => Login::CorruptRecord,
            PasswordCheck::Mismatch => Login::IncorrectPassword,
            PasswordCheck::Match => if user.blocked {
                Login::Blocked
            } else {
                Login::Success
            },
        },
    }
}

/// Decides an attempt to log in with the given password: checks it against
/// the hash that is kept for the user, if there is such a user.
pub fn login(user: Option<&User>, password: &str) -> (login: Login)
    ensures
        login == match user {
            None => Login::NoSuchUser,
            Some(user) => login_of(Some(user@), argon2_check(password@, user@.password)),
        },
{
    match user {
        None => Login::NoSuchUser,
        Some(record) => {
            let check = check_password(password, record.password.as_str());
            decide_login(user, check)
        },
    }
}

impl Login {
    /// What the user is told.
    pub fn message(self) -> (message: String)
        ensures
            message@ == match self {
                Login::Success => "auth success"@,
                Login::NoSuchUser => "non-existent user"@,
                Login::CorruptRecord => "something went wrong"@,
                Login::IncorrectPassword => "incorrect password"@,
                Login::Blocked => "user blocked"@,
            },
    {
        match self {
            Login::Success => "auth success".to_owned(),
            Login::NoSuchUser => "non-existent user".to_owned(),
            Login::CorruptRecord => "something went wrong".to_owned(),
            Login::IncorrectPassword => "incorrect password".to_owned(),
            Login::Blocked => "user blocked".to_owned(),
        }
    }
}

/// The shortest salt that can be written for `argon2`, in bytes.
pub const MIN_SALT_LENGTH: usize = 4;

/// The longest salt that can be written for `argon2`, in bytes.
pub const MAX_SALT_LENGTH: usize = 48;

/// Whether bytes can be written as a salt.
pub open spec fn fits_salt(salt: Seq<u8>) -> bool {
    MIN_SALT_LENGTH <= salt.len() <= MAX_SALT_LENGTH
}

/// The hash that a password and a salt give: none where the salt cannot be
/// written, else what `argon2` makes of them.
pub open spec fn hash_of(password: Seq<char>, salt: Seq<u8>) -> Option<Seq<char>> {
    if fits_salt(salt) {
        argon2_hash(password, salt)
    } else {
        None
    }
}

/// The hash that `argon2` makes of a password with a salt, in PHC form;
/// nothing where it takes the salt or the password for unfit.
pub uninterp spec fn argon2_hash(password: Seq<char>, salt: Seq<u8>) -> Option<Seq<char>>;

/// Hashes a password with `argon2`: `SaltString::encode_b64` writes the
/// salt, and `Argon2::hash_password`, with the default parameters, makes
/// the hash. The contract claims that the hash is a function of the
/// password and the salt, and that the password checks against it. A salt
/// of fewer than four bytes or of more than forty-eight has no text that
/// `argon2` takes, and is left out.
#[verifier::external_body]
pub(crate) fn hash_password(password: &str, salt: &[u8]) -> (hash: Option<String>)
    requires
        fits_salt(salt@),
    ensures
        match hash {
            Some(text) => argon2_hash(password@, salt@) == Some(text@),
            None => argon2_hash(password@, salt@) is None,
        },
        hash matches Some(text) ==> argon2_check(password@, text@) == PasswordCheck::Match,
{
    let salt = argon2::password_hash::SaltString::encode_b64(salt).ok()?;
    match argon2::Argon2::default().hash_password(password.as_bytes(), &salt) {
        Ok(hash) => Some(hash.to_string()),
        Err(_) => None,
    }
}

/// Why a user was not registered.
#[derive(Debug, Clone, Copy, PartialEq, Eq, Structural)]
pub enum RegisterError {
    /// There is a user of that name already.
    UserExists,
    /// The random source of the operating system failed.
    NoRandomness,
    /// The password could not be hashed.
    HashFailed,
}

/// The length of the salt of a password, in bytes.
pub const SALT_LENGTH: usize = 16;

/// Registers a user with a password that is hashed with the given salt,
/// unless there is a user of that name already.
pub fn register_with_salt(existing: Option<&User>, username: &str, password: &str, salt: &[u8])
    -> (registered: Result<User, RegisterError>)
    ensures
        match registered {
            Ok(user) => existing is None && hash_of(password@, salt@) == Some(
                user@.password,
            ) && user@.username == username@ && !user@.blocked && argon2_check(
                password@,
                user@.password,
            ) == PasswordCheck::Match,
            Err(RegisterError::UserExists) => existing is Some,
            Err(RegisterError::HashFailed) => existing is None && hash_of(
                password@,
                salt@,
            ) is None,
            Err(RegisterError::NoRandomness) => false,
        },
{
    if existing.is_some() {
        return Err(RegisterError::UserExists);
    }
    if salt.len() < MIN_SALT_LENGTH || salt.len() > MAX_SALT_LENGTH {
        return Err(RegisterError::HashFailed);
    }
    match hash_password(password, salt) {
        Some(hash) => Ok(User { username: username.to_owned(), password: hash, blocked: false }),
        None => Err(RegisterError::HashFailed),
    }
}

/// Registers a user, with a fresh random salt for the password. Whatever
/// the salt, the user that is registered is not blocked, has the name
/// asked for, and can log in with the password.
pub fn register(existing: Option<&User>, username: &str, password: &str) -> (registered: Result<
    User,
    RegisterError,
>)
    ensures
        existing is Some <==> registered == Err::<User, RegisterError>(RegisterError::UserExists),
        registered matches Ok(user) ==> user@.username == username@ && !user@.blocked
            && login_of(Some(user@), argon2_check(password@, user@.password)) == Login::Success,
{
    if existing.is_some() {
        return Err(RegisterError::UserExists);
    }
    match crate::entropy::random_bytes(SALT_LENGTH) {
        Some(salt) => register_with_salt(existing, username, password, salt.as_slice()),
        None => Err(RegisterError::NoRandomness),
    }
}

} // verus!
