use vstd::prelude::*;

verus! {

/// The outcome of a login attempt.
#[derive(Copy, Clone, Eq, PartialEq, Structural, Debug)]
pub enum LoginResult {
    Success(i32),
    MissingPasscode,
    InvalidCredentials,
    Blocked,
}

/// The outcome of an account registration.
#[derive(Copy, Clone, Eq, PartialEq, Structural, Debug)]
pub enum RegistrationResult {
    Success,
    UsernameTaken,
    DatabaseError,
}

/// The outcome of toggling a character's moderator flag.
#[derive(Copy, Clone, Eq, PartialEq, Structural, Debug)]
pub enum SetGmResult {
    Success,
    DatabaseError,
    UserNotFound,
}

/// The stored credentials row of an account.
#[derive(Clone, Eq, PartialEq, Debug)]
pub struct LoginDbResult {
    pub id: i32,
    pub password: String,
    pub passcode: Option<String>,
}

/// The result of bcrypt's password check: whether the password matches the
/// stored hash, or nothing when the hash string is malformed. The check
/// re-derives the digest from the cost and salt embedded in the hash, so the
/// whole result — the refusal of a bad hash included — depends on the two
/// strings alone.
pub uninterp spec fn bcrypt_check(password: Seq<char>, hash: Seq<char>) -> Option<bool>;

/// Whether bcrypt accepts the password against the stored hash.
pub open spec fn bcrypt_accepts(password: Seq<char>, hash: Seq<char>) -> bool {
    bcrypt_check(password, hash) == Some(true)
}

/// Relies on bcrypt::verify: whether the password matches the hash, nothing
/// on a malformed hash string; deterministic in the two strings.
#[verifier::external_body]
fn verify_password(password: &str, hash: &str) -> (r: Option<bool>)
    ensures
        r == bcrypt_check(password@, hash@),
{
    bcrypt::verify(password, hash).ok()
}

/// Relies on bcrypt::hash at the default cost: a fresh salted hash of the
/// password, which bcrypt::verify parses and accepts for that same password
/// (the hash comes out in the fixed 60-byte form, and the salt and cost
/// travel inside it).
#[verifier::external_body]
pub fn hash_password(password: &str) -> (r: Option<String>)
    ensures
        r matches Some(h) ==> bcrypt_check(password@, h@) == Some(true),
{
    bcrypt::hash(password, bcrypt::DEFAULT_COST).ok()
}

/// What a login attempt returns for each stored row and password check
/// result: no row or a failed check is an invalid credential, a row with a
/// passcode on file demands the passcode, anything else succeeds under the
/// account id.
pub open spec fn spec_login_decision(row: Option<LoginDbResult>, password_ok: bool) -> LoginResult {
    match row {
        None => LoginResult::InvalidCredentials,
        Some(data) => if !password_ok {
            LoginResult::InvalidCredentials
        } else if data.passcode is Some {
            LoginResult::MissingPasscode
        } else {
            LoginResult::Success(data.id)
        },
    }
}

pub fn login_decision(row: Option<&LoginDbResult>, password_ok: bool) -> (r: LoginResult)
    ensures
        r == spec_login_decision(
            match row {
                Some(data) => Some(*data),
                None => None,
            },
            password_ok,
        ),
{
    match row {
        None => LoginResult::InvalidCredentials,
        Some(data) => {
            if !password_ok {
                LoginResult::InvalidCredentials
            } else if data.passcode.is_some() {
                LoginResult::MissingPasscode
            } else {
                LoginResult::Success(data.id)
            }
        },
    }
}

/// Evaluate a login attempt against the stored row: the password is checked
/// with bcrypt, and a failed check (malformed stored hash included) counts
/// as an invalid credential.
pub fn try_login(row: Option<&LoginDbResult>, password: &str) -> (r: LoginResult)
    ensures
        r == spec_login_decision(
            match row {
                Some(data) => Some(*data),
                None => None,
            },
            match row {
                Some(data) => bcrypt_accepts(password@, data.password@),
                None => false,
            },
        ),
{
    match row {
        None => LoginResult::InvalidCredentials,
        Some(data) => {
            let password_ok = match verify_password(password, data.password.as_str()) {
                Some(b) => b,
                None => false,
            };
            login_decision(Some(data), password_ok)
        },
    }
}

/// What a passcode login returns for each stored row and password check
/// result: the row was already selected by username and passcode, so a
/// passing password check succeeds under the account id.
pub open spec fn spec_passcode_login_decision(row: Option<(i32, Seq<char>)>, password_ok: bool) -> LoginResult {
    match row {
        None => LoginResult::InvalidCredentials,
        Some(data) => if password_ok {
            LoginResult::Success(data.0)
        } else {
            LoginResult::InvalidCredentials
        },
    }
}

pub fn passcode_login_decision(row: Option<(i32, &String)>, password_ok: bool) -> (r: LoginResult)
    ensures
        r == spec_passcode_login_decision(
            match row {
                Some((id, hash)) => Some((id, hash@)),
                None => None,
            },
            password_ok,
        ),
{
    match row {
        None => LoginResult::InvalidCredentials,
        Some((id, _)) => {
            if password_ok {
                LoginResult::Success(id)
            } else {
                LoginResult::InvalidCredentials
            }
        },
    }
}

/// Evaluate a passcode login against the row selected by username and
/// passcode.
pub fn try_login_passcode(row: Option<(i32, &String)>, password: &str) -> (r: LoginResult)
    ensures
        r == spec_passcode_login_decision(
            match row {
                Some((id, hash)) => Some((id, hash@)),
                None => None,
            },
            match row {
                Some((id, hash)) => bcrypt_accepts(password@, hash@),
                None => false,
            },
        ),
{
    match row {
        None => LoginResult::InvalidCredentials,
        Some((id, hash)) => {
            let password_ok = match verify_password(password, hash.as_str()) {
                Some(b) => b,
                None => false,
            };
            passcode_login_decision(Some((id, hash)), password_ok)
        },
    }
}

/// Prepare an account registration: a taken username is refused, otherwise
/// the password is hashed for storage; a hashing failure surfaces as a
/// database-level error rather than a stored account.
pub fn prepare_registration(username_taken: bool, password: &str) -> (r: Result<
    String,
    RegistrationResult,
>)
    ensures
        username_taken ==> r == Err::<String, RegistrationResult>(
            RegistrationResult::UsernameTaken,
        ),
        !username_taken ==> match r {
            Ok(h) => bcrypt_check(password@, h@) == Some(true),
            Err(e) => e == RegistrationResult::DatabaseError,
        },
{
    if username_taken {
        return Err(RegistrationResult::UsernameTaken);
    }
    match hash_password(password) {
        Some(h) => Ok(h),
        None => Err(RegistrationResult::DatabaseError),
    }
}

/// The outcome of the insert that stores a prepared registration.
pub fn registration_outcome(insert_ok: bool) -> (r: RegistrationResult)
    ensures
        r == if insert_ok {
            RegistrationResult::Success
        } else {
            RegistrationResult::DatabaseError
        },
{
    if insert_ok {
        RegistrationResult::Success
    } else {
        RegistrationResult::DatabaseError
    }
}

/// The outcome of toggling a character's moderator flag: an unknown
/// character is reported as such, otherwise the update's own success
/// decides.
pub fn set_gm_outcome(character_exists: bool, update_ok: bool) -> (r: SetGmResult)
    ensures
        r == if !character_exists {
            SetGmResult::UserNotFound
        } else if update_ok {
            SetGmResult::Success
        } else {
            SetGmResult::DatabaseError
        },
{
    if !character_exists {
        SetGmResult::UserNotFound
    } else if update_ok {
        SetGmResult::Success
    } else {
        SetGmResult::DatabaseError
    }
}

} // verus!
