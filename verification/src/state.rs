//! The server's account rules: which usernames and passwords are accepted,
//! how an availability query, a registration and a login are decided.
use vstd::prelude::*;
use vstd::string::*;

use crate::database::user::{UserDetails, UserLogin};
use crate::database::Database;
use crate::error::{SuperoxideError, SuperoxideResult};
use crate::hashing::{
    argon2_check, argon2_hash, argon2_phc_hash, argon2_phc_prefix, argon2_verdict, generate_salt,
    hex_encode, hex_lower, max_password_bytes, random_bytes, sha256, sha256_digest, starts_with,
    PasswordCheck,
};
use crate::http_server::{FrontendUserDetails, HttpServerError};

verus! {

/// The monotonic clock reading type of `std`, carried through unopened.
#[verifier::external_type_specification]
#[verifier::external_body]
pub struct ExInstant(std::time::Instant);

/// The server's global state.
pub struct ServerState {
    /// The instance to a database.
    pub database: Database,
    /// The instant at which the server is assumed to have started.
    pub uptime_start: std::time::Instant,
}

/// Tells how a username is invalid.
#[derive(Debug, Clone, Copy, PartialEq, Eq, Structural)]
pub enum UsernameValidationError {
    TooShort,
    TooLong,
    InvalidCharacters,
    ContainsSpaces,
}

/// Tells the state of the availability of a username.
#[derive(Debug, Clone, Copy, PartialEq, Eq, Structural)]
pub enum UsernameAvailability {
    Available,
    AlreadyTaken,
    Invalid(UsernameValidationError),
}

/// Tells the result of an attempt to create an account.
/// Should not be given to the front-end as it contains
/// the internal user ID.
#[derive(Debug, Clone, Copy, PartialEq, Eq, Structural)]
pub enum AccountRegistrationResult {
    Successful(u64),
    UsernameAlreadyTaken,
    InvalidUsername,
}

/// Tells the result of an attempt to log into an account.
#[derive(Debug, Clone, Copy, PartialEq, Eq, Structural)]
pub enum AccountLoginResult {
    Successful(u64),
    IncorrectUsernameOrPassword,
}

/// What a registration needs next once the request itself has been judged.
pub enum RegistrationStep {
    /// The registration is decided without the database.
    Finished(AccountRegistrationResult),
    /// The account is to be inserted with this password hash.
    CreateAccount { password_hash: String },
}

/// A new session's token, handed to the client, and the hash of its bytes,
/// which is what the database stores.
pub struct SessionCredentials {
    pub token: String,
    pub token_hash: [u8; 32],
}

/// Tells that the password provided was invalid.
#[derive(Debug, Clone, Copy, PartialEq, Eq, Structural)]
pub struct InvalidPassword;

/// Fewest bytes a username may have.
pub const MIN_USERNAME_LENGTH: usize = 3;

/// Most bytes a username may have.
pub const MAX_USERNAME_LENGTH: usize = 32;

/// Fewest bytes a password may have.
pub const MIN_PASSWORD_LENGTH: usize = 12;

/// Most bytes a password may have.
pub const MAX_PASSWORD_LENGTH: usize = 256;

/// A byte that may appear in a username: an ASCII digit or letter, `_`, `-` or `.`.
pub open spec fn is_username_byte(b: u8) -> bool {
    ||| 48 <= b <= 57
    ||| 97 <= b <= 122
    ||| 65 <= b <= 90
    ||| b == 95
    ||| b == 45
    ||| b == 46
}

/// The first byte of `s` that may not appear in a username, if there is one.
pub open spec fn first_disallowed_byte(s: Seq<u8>) -> Option<u8>
    decreases s.len(),
{
    if s.len() == 0 {
        None
    } else if is_username_byte(s[0]) {
        first_disallowed_byte(s.drop_first())
    } else {
        Some(s[0])
    }
}

/// The verdict on a username given by its UTF-8 bytes: too short below three
/// bytes, too long above thirty-two, and otherwise decided by the first byte
/// outside the allowed set (a space, or any other byte).
pub open spec fn username_verdict(bytes: Seq<u8>) -> Result<(), UsernameValidationError> {
    if bytes.len() < MIN_USERNAME_LENGTH {
        Err(UsernameValidationError::TooShort)
    } else if bytes.len() > MAX_USERNAME_LENGTH {
        Err(UsernameValidationError::TooLong)
    } else {
        match first_disallowed_byte(bytes) {
            None => Ok(()),
            Some(b) => if b == 32 {
                Err(UsernameValidationError::ContainsSpaces)
            } else {
                Err(UsernameValidationError::InvalidCharacters)
            },
        }
    }
}

/// How a username query is answered, given whether a user of that name exists:
/// an invalid name is reported as such (whether or not it is taken), a valid one
/// as taken or available.
pub open spec fn availability_outcome(bytes: Seq<u8>, exists: bool) -> UsernameAvailability {
    match username_verdict(bytes) {
        Err(error) => UsernameAvailability::Invalid(error),
        Ok(()) => if exists {
            UsernameAvailability::AlreadyTaken
        } else {
            UsernameAvailability::Available
        },
    }
}

/// Whether a password of these UTF-8 bytes is accepted.
pub open spec fn password_accepted(bytes: Seq<u8>) -> bool {
    MIN_PASSWORD_LENGTH <= bytes.len() <= MAX_PASSWORD_LENGTH
}

/// No byte is disallowed exactly when every byte is allowed.
pub proof fn lemma_first_disallowed_none(s: Seq<u8>)
    ensures
        first_disallowed_byte(s) is None <==> forall|i: int| 0 <= i < s.len() ==> is_username_byte(#[trigger] s[i]),
    decreases s.len(),
{
    if s.len() > 0 {
        lemma_first_disallowed_none(s.drop_first());
        assert forall|i: int| 0 < i < s.len() implies #[trigger] s[i] == s.drop_first()[i - 1] by {}
        if forall|i: int| 0 <= i < s.drop_first().len() ==> is_username_byte(#[trigger] s.drop_first()[i]) {
            if is_username_byte(s[0]) {
                assert forall|i: int| 0 <= i < s.len() implies is_username_byte(#[trigger] s[i]) by {
                    if i > 0 {
                        assert(s[i] == s.drop_first()[i - 1]);
                    }
                }
            }
        }
    }
}

/// The username rules, with the byte values written out: a name of fewer than
/// three bytes is too short and one of more than thirty-two too long; otherwise
/// it is valid exactly when every byte is an ASCII digit (48..=57), lowercase
/// letter (97..=122) or uppercase letter (65..=90), `_` (95), `-` (45) or `.`
/// (46), and an invalid name is refused for its first other byte: for containing
/// spaces when that byte is a space (32), for invalid characters otherwise.
pub proof fn lemma_username_rules(bytes: Seq<u8>)
    ensures
        bytes.len() < 3 ==> username_verdict(bytes) == Err::<(), UsernameValidationError>(
            UsernameValidationError::TooShort),
        bytes.len() > 32 ==> username_verdict(bytes) == Err::<(), UsernameValidationError>(
            UsernameValidationError::TooLong),
        3 <= bytes.len() <= 32 ==> (username_verdict(bytes) == Ok::<(), UsernameValidationError>(())
            <==> forall|i: int| 0 <= i < bytes.len() ==> {
                let b = #[trigger] bytes[i];
                (48 <= b <= 57) || (97 <= b <= 122) || (65 <= b <= 90) || b == 95 || b == 45 || b == 46
            }),
        forall|i: int|
            3 <= bytes.len() <= 32 && 0 <= i < bytes.len()
            && !({
                let b = #[trigger] bytes[i];
                (48 <= b <= 57) || (97 <= b <= 122) || (65 <= b <= 90) || b == 95 || b == 45 || b == 46
            })
            && (forall|j: int| 0 <= j < i ==> {
                let c = #[trigger] bytes[j];
                (48 <= c <= 57) || (97 <= c <= 122) || (65 <= c <= 90) || c == 95 || c == 45 || c == 46
            })
            ==> username_verdict(bytes) == Err::<(), UsernameValidationError>(
                if bytes[i] == 32 {
                    UsernameValidationError::ContainsSpaces
                } else {
                    UsernameValidationError::InvalidCharacters
                }),
{
    lemma_first_disallowed_none(bytes);
    assert forall|i: int|
        3 <= bytes.len() <= 32 && 0 <= i < bytes.len()
        && !({
            let b = #[trigger] bytes[i];
            (48 <= b <= 57) || (97 <= b <= 122) || (65 <= b <= 90) || b == 95 || b == 45 || b == 46
        })
        && (forall|j: int| 0 <= j < i ==> {
            let c = #[trigger] bytes[j];
            (48 <= c <= 57) || (97 <= c <= 122) || (65 <= c <= 90) || c == 95 || c == 45 || c == 46
        })
        implies username_verdict(bytes) == Err::<(), UsernameValidationError>(
            if bytes[i] == 32 {
                UsernameValidationError::ContainsSpaces
            } else {
                UsernameValidationError::InvalidCharacters
            }) by {
        assert forall|j: int| 0 <= j < i implies is_username_byte(#[trigger] bytes[j]) by {
            let c = bytes[j];
            assert((48 <= c <= 57) || (97 <= c <= 122) || (65 <= c <= 90) || c == 95 || c == 45 || c == 46);
        }
        lemma_first_disallowed_at(bytes, i);
    }
}

/// When every byte before index `i` is allowed and the one at `i` is not, the
/// first disallowed byte is the one at `i`.
proof fn lemma_first_disallowed_at(s: Seq<u8>, i: int)
    requires
        0 <= i < s.len(),
        !is_username_byte(s[i]),
        forall|j: int| 0 <= j < i ==> is_username_byte(#[trigger] s[j]),
    ensures
        first_disallowed_byte(s) == Some(s[i]),
    decreases i,
{
    if i > 0 {
        assert(is_username_byte(s[0]));
        assert forall|j: int| 0 <= j < i - 1 implies is_username_byte(#[trigger] s.drop_first()[j]) by {
            assert(s.drop_first()[j] == s[j + 1]);
        }
        lemma_first_disallowed_at(s.drop_first(), i - 1);
    }
}

/// The password rule, with the bounds written out: a password is accepted
/// exactly when it has between 12 and 256 bytes, whatever else holds of it.
pub proof fn lemma_password_rule(bytes: Seq<u8>)
    ensures
        password_accepted(bytes) <==> 12 <= bytes.len() <= 256,
{
}

/// A username is accepted exactly when it has between three and thirty-two
/// bytes, each an ASCII letter or digit, `_`, `-` or `.`; a name refused for
/// containing spaces does contain one.
pub proof fn lemma_accepted_usernames(bytes: Seq<u8>)
    ensures
        username_verdict(bytes) is Ok <==> (MIN_USERNAME_LENGTH <= bytes.len() <= MAX_USERNAME_LENGTH
            && forall|i: int| 0 <= i < bytes.len() ==> is_username_byte(#[trigger] bytes[i])),
        username_verdict(bytes) == Err::<(), UsernameValidationError>(UsernameValidationError::ContainsSpaces)
            ==> exists|i: int| 0 <= i < bytes.len() && bytes[i] == 32,
{
    lemma_first_disallowed_none(bytes);
    if first_disallowed_byte(bytes) == Some(32u8) {
        lemma_first_disallowed_occurs(bytes);
    }
}

/// The byte `first_disallowed_byte` names occurs in the sequence.
proof fn lemma_first_disallowed_occurs(s: Seq<u8>)
    requires
        first_disallowed_byte(s) is Some,
    ensures
        exists|i: int| 0 <= i < s.len() && s[i] == first_disallowed_byte(s)->0,
    decreases s.len(),
{
    if is_username_byte(s[0]) {
        lemma_first_disallowed_occurs(s.drop_first());
        let i = choose|i: int| 0 <= i < s.drop_first().len() && s.drop_first()[i] == first_disallowed_byte(s.drop_first())->0;
        assert(s[i + 1] == s.drop_first()[i]);
    } else {
        assert(s[0] == first_disallowed_byte(s)->0);
    }
}

/// A username query and a registration judge a name alike: the query reports
/// a name invalid, with a given reason, exactly when the name's verdict is that
/// reason, and that is exactly when a registration under the name is refused as
/// an invalid username; a valid name is reported taken or available as the
/// database says.
pub proof fn lemma_availability_agrees_with_registration(bytes: Seq<u8>, exists: bool)
    ensures
        forall|reason: UsernameValidationError|
            availability_outcome(bytes, exists) == UsernameAvailability::Invalid(reason)
                <==> username_verdict(bytes) == Err::<(), UsernameValidationError>(reason),
        availability_outcome(bytes, exists) is Invalid <==> username_verdict(bytes) is Err,
        username_verdict(bytes) is Ok ==> (availability_outcome(bytes, exists)
            == if exists { UsernameAvailability::AlreadyTaken } else { UsernameAvailability::Available }),
{
}

/// A session token is 64 characters of lowercase hexadecimal: two digits for
/// each of its 32 bytes.
pub proof fn lemma_session_token_shape(bytes: Seq<u8>)
    requires
        bytes.len() == 32,
    ensures
        hex_lower(bytes).len() == 64,
        forall|i: int| 0 <= i < 64 ==> {
            let c = #[trigger] hex_lower(bytes)[i];
            ('0' <= c <= '9') || ('a' <= c <= 'f')
        },
{
    assert forall|i: int| 0 <= i < 64 implies {
        let c = #[trigger] hex_lower(bytes)[i];
        ('0' <= c <= '9') || ('a' <= c <= 'f')
    } by {
        let b = bytes[i / 2] as int;
        assert(0 <= b / 16 < 16 && 0 <= b % 16 < 16) by (nonlinear_arith)
            requires 0 <= b < 256;
    }
}

impl ServerState {
    /// Takes a username and returns if it is valid for a user to exist with the given name.
    pub fn validate_username(username: &str) -> (result: Result<(), UsernameValidationError>)
        ensures
            result == username_verdict(username.spec_bytes()),
            (3 <= username.spec_bytes().len() <= 32 && forall|i: int|
                0 <= i < username.spec_bytes().len() ==> {
                    let b = #[trigger] username.spec_bytes()[i];
                    (48 <= b <= 57) || (97 <= b <= 122) || (65 <= b <= 90) || b == 95 || b == 45 || b == 46
                }) <==> result is Ok,
    {
        proof {
            lemma_username_rules(username.spec_bytes());
        }
        let bytes = username.as_bytes();
        let n = bytes.len();
        if n < MIN_USERNAME_LENGTH {
            return Err(UsernameValidationError::TooShort);
        }
        if n > MAX_USERNAME_LENGTH {
            return Err(UsernameValidationError::TooLong);
        }
        let mut i: usize = 0;
        assert(bytes@.subrange(0, n as int) =~= bytes@);
        while i < n
            invariant
                n == bytes@.len(),
                bytes@ == username.spec_bytes(),
                MIN_USERNAME_LENGTH <= n <= MAX_USERNAME_LENGTH,
                i <= n,
                first_disallowed_byte(bytes@.subrange(i as int, n as int)) == first_disallowed_byte(bytes@),
            decreases n - i,
        {
            let byte = bytes[i];
            assert(bytes@.subrange(i as int, n as int)[0] == byte);
            assert(bytes@.subrange(i as int, n as int).drop_first() =~= bytes@.subrange(i + 1, n as int));
            if (48 <= byte && byte <= 57) || (97 <= byte && byte <= 122) || (65 <= byte && byte <= 90)
                || byte == 95 || byte == 45 || byte == 46 {
            } else if byte == 32 {
                return Err(UsernameValidationError::ContainsSpaces);
            } else {
                return Err(UsernameValidationError::InvalidCharacters);
            }
            i = i + 1;
        }
        assert(bytes@.subrange(n as int, n as int).len() == 0);
        Ok(())
    }

    /// Accepts a password whose length lies between twelve and 256 bytes.
    pub fn validate_password(password: &str) -> (result: Result<(), InvalidPassword>)
        ensures
            result is Ok <==> password_accepted(password.spec_bytes()),
            result is Ok <==> 12 <= password.spec_bytes().len() <= 256,
    {
        let n = password.as_bytes().len();
        if n < MIN_PASSWORD_LENGTH || n > MAX_PASSWORD_LENGTH {
            return Err(InvalidPassword);
        }
        Ok(())
    }

    /// The answer to a username query that needs no database: `Some` with the
    /// reason for an invalid name (the answer whatever the database holds),
    /// `None` for a valid one, whose availability the database then decides
    /// (see [`ServerState::availability_after_lookup`]).
    pub fn availability_before_lookup(username: &str) -> (answer: Option<UsernameAvailability>)
        ensures
            answer is None <==> username_verdict(username.spec_bytes()) is Ok,
            answer matches Some(a) ==> forall|exists: bool|
                a == #[trigger] availability_outcome(username.spec_bytes(), exists),
    {
        match Self::validate_username(username) {
            Err(error) => Some(UsernameAvailability::Invalid(error)),
            Ok(()) => None,
        }
    }

    /// The answer to a username query, given whether a user of that name exists.
    pub fn availability_after_lookup(username: &str, exists: bool) -> (answer: UsernameAvailability)
        ensures
            answer == availability_outcome(username.spec_bytes(), exists),
    {
        match Self::availability_before_lookup(username) {
            Some(answer) => answer,
            None => if exists {
                UsernameAvailability::AlreadyTaken
            } else {
                UsernameAvailability::Available
            },
        }
    }

    /// Hashes a password with Argon2 under the given salt (in its B64 form).
    pub fn hash_password_with_salt(password: &str, salt: &str) -> (result: SuperoxideResult<String>)
        ensures
            match result {
                Ok(hash) => argon2_phc_hash(password.spec_bytes(), salt@) == Some(hash@),
                Err(error) => argon2_phc_hash(password.spec_bytes(), salt@) is None
                    && error is HashingError,
            },
            result matches Ok(hash) ==> argon2_verdict(password.spec_bytes(), hash@) == Some(true),
            result matches Ok(hash) ==> starts_with(hash@, argon2_phc_prefix()),
            password.spec_bytes().len() > max_password_bytes() ==> result is Err,
    {
        match argon2_hash(password, salt) {
            Ok(hash) => Ok(hash),
            Err(error) => Err(SuperoxideError::HashingError(error)),
        }
    }

    /// Hashes a password with Argon2 under a freshly generated random salt. It
    /// succeeds for every password Argon2 accepts (up to `u32::MAX` bytes); the
    /// hash is that of the password under some salt, is a PHC string of Argon2id
    /// version 19, and verifies the password.
    pub fn hash_password(password: &str) -> (result: SuperoxideResult<String>)
        ensures
            result is Ok <==> password.spec_bytes().len() <= max_password_bytes(),
            match result {
                Ok(hash) => exists|salt: Seq<char>|
                    argon2_phc_hash(password.spec_bytes(), salt) == Some(hash@),
                Err(error) => error is HashingError,
            },
            result matches Ok(hash) ==> argon2_verdict(password.spec_bytes(), hash@) == Some(true),
            result matches Ok(hash) ==> starts_with(hash@, argon2_phc_prefix()),
    {
        let salt = generate_salt();
        assert(password.spec_bytes().len() <= max_password_bytes()
            ==> argon2_phc_hash(password.spec_bytes(), salt@) is Some);
        Self::hash_password_with_salt(password, salt.as_str())
    }

    /// Checks a password against a stored hash: `Ok(true)` when they match,
    /// `Ok(false)` when they do not, and an error when the stored hash cannot be
    /// parsed or the check fails.
    pub fn verify_password(password: &str, password_hash: &str) -> (result: SuperoxideResult<bool>)
        ensures
            match argon2_verdict(password.spec_bytes(), password_hash@) {
                Some(matched) => result == Ok::<bool, SuperoxideError>(matched),
                None => result matches Err(error) && error is HashingError,
            },
    {
        match argon2_check(password, password_hash) {
            PasswordCheck::Match => Ok(true),
            PasswordCheck::Mismatch => Ok(false),
            PasswordCheck::Failed(error) => Err(SuperoxideError::HashingError(error)),
        }
    }

    /// Judges a registration before the database is involved: an invalid
    /// username is refused outright; otherwise the password is hashed (under a
    /// fresh random salt) and the account is to be created with that hash, which
    /// happens for every password Argon2 accepts (up to `u32::MAX` bytes).
    /// **Does not create a new session.**
    pub fn prepare_registration(username: &str, password: &str) -> (result: SuperoxideResult<RegistrationStep>)
        ensures
            username_verdict(username.spec_bytes()) is Err ==> (result matches Ok(step)
                && step == RegistrationStep::Finished(AccountRegistrationResult::InvalidUsername)),
            username_verdict(username.spec_bytes()) is Ok ==> match result {
                Ok(RegistrationStep::CreateAccount { password_hash }) =>
                    (exists|salt: Seq<char>|
                        argon2_phc_hash(password.spec_bytes(), salt) == Some(password_hash@))
                    && argon2_verdict(password.spec_bytes(), password_hash@) == Some(true)
                    && starts_with(password_hash@, argon2_phc_prefix())
                    && password.spec_bytes().len() <= max_password_bytes(),
                Ok(RegistrationStep::Finished(_)) => false,
                Err(error) => error is HashingError
                    && password.spec_bytes().len() > max_password_bytes(),
            },
    {
        if Self::validate_username(username).is_err() {
            return Ok(RegistrationStep::Finished(AccountRegistrationResult::InvalidUsername));
        }
        let password_hash = Self::hash_password(password)?;
        Ok(RegistrationStep::CreateAccount { password_hash })
    }

    /// The result of a registration once the database has tried to create the
    /// account: the new user's ID, or `None` when the name was already taken.
    pub fn registration_result(created: Option<u64>) -> (result: AccountRegistrationResult)
        ensures
            result == match created {
                Some(user_id) => AccountRegistrationResult::Successful(user_id),
                None => AccountRegistrationResult::UsernameAlreadyTaken,
            },
    {
        match created {
            Some(user_id) => AccountRegistrationResult::Successful(user_id),
            None => AccountRegistrationResult::UsernameAlreadyTaken,
        }
    }

    /// Decides a login from the record the database holds for the username
    /// (if any): it succeeds, with the user's ID, exactly when there is a record
    /// and the password matches its hash. An unknown user and a wrong password
    /// get the same answer. **Does not create a new session.**
    pub fn login_with_record(record: Option<UserLogin>, password: &str) -> (result: SuperoxideResult<AccountLoginResult>)
        ensures
            match record {
                None => result == Ok::<AccountLoginResult, SuperoxideError>(
                    AccountLoginResult::IncorrectUsernameOrPassword),
                Some(login) => match argon2_verdict(password.spec_bytes(), login.password_hash@) {
                    Some(true) => result == Ok::<AccountLoginResult, SuperoxideError>(
                        AccountLoginResult::Successful(login.id)),
                    Some(false) => result == Ok::<AccountLoginResult, SuperoxideError>(
                        AccountLoginResult::IncorrectUsernameOrPassword),
                    None => result matches Err(error) && error is HashingError,
                },
            },
    {
        match record {
            None => Ok(AccountLoginResult::IncorrectUsernameOrPassword),
            Some(login) => {
                if Self::verify_password(password, login.password_hash.as_str())? {
                    Ok(AccountLoginResult::Successful(login.id))
                } else {
                    Ok(AccountLoginResult::IncorrectUsernameOrPassword)
                }
            },
        }
    }

    /// The credentials of a session made from these token bytes: the token is
    /// their lowercase hexadecimal text, and the stored hash their SHA-256 digest.
    pub fn session_credentials(bytes: [u8; 32]) -> (credentials: SessionCredentials)
        ensures
            credentials.token@ == hex_lower(bytes@),
            credentials.token_hash@ == sha256_digest(bytes@),
    {
        let token_hash = Self::hash_token_bytes(bytes.as_slice());
        let token = hex_encode(bytes.as_slice());
        SessionCredentials { token, token_hash }
    }

    /// The credentials of a new session, made from 32 random bytes.
    pub fn generate_session_credentials() -> (credentials: SessionCredentials)
        ensures
            exists|bytes: Seq<u8>|
                bytes.len() == 32 && credentials.token@ == hex_lower(bytes)
                    && credentials.token_hash@ == sha256_digest(bytes),
    {
        let bytes = random_bytes();
        let credentials = Self::session_credentials(bytes);
        assert(bytes@.len() == 32);
        credentials
    }

    /// The details shown to the front-end for a user, given what the database
    /// holds on them; a user the database does not know is unauthorized.
    pub fn frontend_user_details(details: Option<UserDetails>) -> (result: Result<FrontendUserDetails, HttpServerError>)
        ensures
            match details {
                Some(user) => result matches Ok(front) && front.username == user.username,
                None => result matches Err(error) && error is Unauthorized,
            },
    {
        match details {
            Some(user) => Ok(FrontendUserDetails { username: user.username }),
            None => Err(HttpServerError::Unauthorized),
        }
    }

    /// Uses SHA-256 hashing on token bytes to get a hash that is one-way.
    pub fn hash_token_bytes(bytes: &[u8]) -> (digest: [u8; 32])
        ensures
            digest@ == sha256_digest(bytes@),
    {
        sha256(bytes)
    }
}

} // verus!
