use vstd::prelude::*;
use crate::entity::{AuthUser, UserEntity};
use crate::ids::new_uuid;

verus! {

#[verifier::external_type_specification]
#[verifier::external_body]
pub struct ExBcryptError(bcrypt::BcryptError);

/// What `bcrypt::verify(password, hash)` answers: `Some(b)` for `Ok(b)`,
/// `None` when it fails (a malformed hash, a cost out of range).
pub uninterp spec fn bcrypt_accepts(password: Seq<char>, hash: Seq<char>) -> Option<bool>;

/// The text `bcrypt::hash` writes at the default cost: `$2b$12$` followed by
/// the 22 characters of the salt and the 31 of the digest, 60 in all.
pub open spec fn is_bcrypt_hash_text(h: Seq<char>) -> bool {
    h.len() == 60 && h.subrange(0, 7) == "$2b$12$"@
}

/// `bcrypt::hash(password, bcrypt::DEFAULT_COST)`. The salt is random, so the
/// text is not stated. Claimed: a hash it returns is one that
/// `bcrypt::verify` accepts for the same password (the crate writes cost,
/// salt and digest in the `$2b$` form that `verify` splits and recomputes),
/// and it has that form: version `2b`, cost `12`, 60 characters.
/// Its only failure with this cost is the operating system's random source
/// failing, which depends on the machine: no clause says when.
#[verifier::external_body]
fn bcrypt_hash(password: &str) -> (r: Result<String, bcrypt::BcryptError>)
    ensures
        r matches Ok(h) ==> bcrypt_accepts(password@, h@) == Some(true),
        r matches Ok(h) ==> is_bcrypt_hash_text(h@),
{
    bcrypt::hash(password, bcrypt::DEFAULT_COST)
}

/// `bcrypt::verify(password, hash)`. Claimed: its answer is the one named
/// `bcrypt_accepts(password@, hash@)`; it depends on the two texts alone.
#[verifier::external_body]
fn bcrypt_verify(password: &str, hash: &str) -> (r: Result<bool, bcrypt::BcryptError>)
    ensures
        match r {
            Ok(b) => bcrypt_accepts(password@, hash@) == Some(b),
            Err(_) => bcrypt_accepts(password@, hash@) is None,
        },
{
    bcrypt::verify(password, hash)
}

/// Hashing a password failed.
#[derive(Debug, Clone, Copy, PartialEq, Eq, Structural)]
pub enum PasswordError {
    Hashing,
    Checking,
}

/// Hashes a password for storage.
pub fn hash_password(password: &str) -> (r: Result<String, PasswordError>)
    ensures
        r matches Ok(h) ==> bcrypt_accepts(password@, h@) == Some(true) && is_bcrypt_hash_text(h@),
        r matches Err(e) ==> e == PasswordError::Hashing,
{
    match bcrypt_hash(password) {
        Ok(h) => Ok(h),
        Err(_) => Err(PasswordError::Hashing),
    }
}

/// Checks a password against a stored hash: `Ok(true)` when it matches,
/// `Ok(false)` when it does not, `Err` when the hash cannot be checked.
pub fn check_password(password: &str, hash: &str) -> (r: Result<bool, PasswordError>)
    ensures
        match bcrypt_accepts(password@, hash@) {
            Some(b) => r == Ok::<bool, PasswordError>(b),
            None => r == Err::<bool, PasswordError>(PasswordError::Checking),
        },
{
    match bcrypt_verify(password, hash) {
        Ok(b) => Ok(b),
        Err(_) => Err(PasswordError::Checking),
    }
}

/// The account row stored for `user`: a fresh row id, the password replaced
/// by its hash, everything else as given.
pub open spec fn auth_user_row_spec(user: AuthUser, id: u128, hashed: String) -> AuthUser {
    AuthUser {
        id,
        user_id: user.user_id,
        email: user.email,
        password: hashed,
        role: user.role,
        created_at: user.created_at,
    }
}

/// Assembles the account row to insert from the account, the new row id and
/// the password hash.
pub fn auth_user_row(user: AuthUser, id: u128, hashed: String) -> (row: AuthUser)
    ensures
        row == auth_user_row_spec(user, id, hashed),
{
    AuthUser {
        id,
        user_id: user.user_id,
        email: user.email,
        password: hashed,
        role: user.role,
        created_at: user.created_at,
    }
}

/// Prepares an account for insertion: a new random row id and the password
/// hashed. The stored hash accepts the password the account was given.
/// It fails only when hashing fails, which happens only when the random
/// source for the salt fails.
pub fn prepare_auth_user(user: AuthUser) -> (r: Result<AuthUser, PasswordError>)
    ensures
        r matches Err(e) ==> e == PasswordError::Hashing,
        r matches Ok(row) ==> {
            &&& row.user_id == user.user_id
            &&& row.email == user.email
            &&& row.role == user.role
            &&& row.created_at == user.created_at
            &&& bcrypt_accepts(user.password@, row.password@) == Some(true)
            &&& is_bcrypt_hash_text(row.password@)
            &&& !is_bcrypt_hash_text(user.password@) ==> row.password@ != user.password@
        },
{
    let id = new_uuid();
    match hash_password(user.password.as_str()) {
        Ok(hashed) => Ok(auth_user_row(user, id, hashed)),
        Err(e) => Err(e),
    }
}

/// The users-table row stored for `user`: a fresh id, the password replaced
/// by its hash, everything else as given.
pub open spec fn user_row_spec(user: UserEntity, id: u128, hashed: String) -> UserEntity {
    UserEntity { id, password: hashed, ..user }
}

/// Assembles the users-table row to insert from the user, the new id and
/// the password hash.
pub fn user_row(user: UserEntity, id: u128, hashed: String) -> (row: UserEntity)
    ensures
        row == user_row_spec(user, id, hashed),
{
    UserEntity { id, password: hashed, ..user }
}

/// Prepares a users-table row for insertion: a new random id and the
/// password hashed. It fails only when hashing fails, which happens only when
/// the random source for the salt fails.
pub fn prepare_user(user: UserEntity) -> (r: Result<UserEntity, PasswordError>)
    ensures
        r matches Err(e) ==> e == PasswordError::Hashing,
        r matches Ok(row) ==> {
            &&& row == user_row_spec(user, row.id, row.password)
            &&& bcrypt_accepts(user.password@, row.password@) == Some(true)
            &&& is_bcrypt_hash_text(row.password@)
            &&& !is_bcrypt_hash_text(user.password@) ==> row.password@ != user.password@
        },
{
    let id = new_uuid();
    match hash_password(user.password.as_str()) {
        Ok(hashed) => Ok(user_row(user, id, hashed)),
        Err(e) => Err(e),
    }
}

} // verus!
