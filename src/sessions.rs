use vstd::prelude::*;

use crate::clock::Timestamp;
use crate::error::{ObsidianError, ReqError};
use crate::secrets::{bcrypt_accepts, hash_password, password_matches, random_char, random_u32};
use crate::text::{decimal_usize, parse_usize};

verus! {

/// How long a token stays valid: 24 hours, in microseconds.
pub const TOKEN_TTL_MICROS: i64 = 86_400_000_000;

/// The number of characters in a token secret.
pub const SECRET_LEN: usize = 24;

/// A bearer credential: the id of a stored token and its plain secret.
#[derive(Debug)]
pub struct AuthToken {
    pub token_id: usize,
    pub secret: String,
}

/// A stored token, as storage returns it for a lookup by id.
#[derive(Debug)]
pub struct TokenRecord {
    pub token_id: usize,
    pub hashed_secret: String,
    pub school_id: usize,
    pub created_at: Timestamp,
}

pub struct TokenRecordView {
    pub token_id: usize,
    pub hashed_secret: Seq<char>,
    pub school_id: usize,
    pub created_at: Timestamp,
}

impl View for TokenRecord {
    type V = TokenRecordView;

    open spec fn view(&self) -> TokenRecordView {
        TokenRecordView {
            token_id: self.token_id,
            hashed_secret: self.hashed_secret@,
            school_id: self.school_id,
            created_at: self.created_at,
        }
    }
}

/// A token made at `created_at` is younger than the time to live at `now`.
pub open spec fn is_fresh(created_at: Timestamp, now: Timestamp) -> bool {
    now.micros - created_at.micros < TOKEN_TTL_MICROS
}

/// Whether a presented credential matches a stored token at `now`: same
/// id, not expired, and the secret matches the stored hash.
pub open spec fn token_matches(token_id: usize, secret: Seq<char>, rec: TokenRecordView, now: Timestamp) -> bool {
    &&& rec.token_id == token_id
    &&& is_fresh(rec.created_at, now)
    &&& bcrypt_accepts(secret, rec.hashed_secret)
}

/// The school that a credential authenticates, given the stored token
/// found for its id (if any).
pub open spec fn verify_outcome(
    token_id: usize,
    secret: Seq<char>,
    rec: Option<TokenRecordView>,
    now: Timestamp,
) -> Result<usize, ObsidianError> {
    match rec {
        Some(r) => if token_matches(token_id, secret, r, now) {
            Ok(r.school_id)
        } else {
            Err(ObsidianError::RequestError(ReqError::NoAuth))
        },
        None => Err(ObsidianError::RequestError(ReqError::NoAuth)),
    }
}

pub open spec fn record_view(rec: Option<&TokenRecord>) -> Option<TokenRecordView> {
    match rec {
        Some(r) => Some(r@),
        None => None,
    }
}

impl AuthToken {
    /// Reads a credential from the user name (the token id, in decimal) and
    /// the password (the secret) of a Basic authorization header.
    pub fn from_header(username: &str, password: Option<&str>) -> (r: Result<
        AuthToken,
        ObsidianError,
    >)
        ensures
            match r {
                Ok(t) => password is Some && t.secret@ == password->Some_0@ && decimal_usize(
                    username@,
                ) == Some(t.token_id),
                Err(e) => e == ObsidianError::RequestError(ReqError::NoAuth) && (password is None
                    || decimal_usize(username@) is None),
            },
    {
        let secret = match password {
            Some(p) => String::from_str(p),
            None => return Err(ObsidianError::RequestError(ReqError::NoAuth)),
        };
        match parse_usize(username) {
            Some(token_id) => Ok(AuthToken { token_id, secret }),
            None => Err(ObsidianError::RequestError(ReqError::NoAuth)),
        }
    }

    /// Issues a fresh credential: a random 32-bit id and a random secret of
    /// 24 characters, with the hash of the secret that storage keeps. The
    /// plain secret is handed out only here.
    pub fn new() -> (r: Result<(AuthToken, String), ObsidianError>)
        ensures
            match r {
                Ok((t, hashed)) => t.token_id <= u32::MAX && t.secret@.len() == SECRET_LEN
                    && bcrypt_accepts(t.secret@, hashed@),
                Err(e) => e == ObsidianError::BCryptError,
            },
    {
        let token_id = random_u32() as usize;
        let mut secret = String::new();
        let mut i: usize = 0;
        while i < SECRET_LEN
            invariant
                i <= SECRET_LEN,
                secret@.len() == i,
            decreases SECRET_LEN - i,
        {
            let c = random_char();
            secret.append(c.as_str());
            i += 1;
        }
        match hash_password(secret.as_str()) {
            Ok(hashed) => Ok((AuthToken { token_id, secret }, hashed)),
            Err(_) => Err(ObsidianError::BCryptError),
        }
    }

    /// The school that this credential authenticates at `now`, given the
    /// stored token that storage found for its id. Expired tokens, tokens of
    /// another id and wrong secrets are refused alike.
    pub fn verify(&self, record: Option<&TokenRecord>, now: Timestamp) -> (r: Result<
        usize,
        ObsidianError,
    >)
        ensures
            r == verify_outcome(self.token_id, self.secret@, record_view(record), now),
    {
        let rec = match record {
            Some(rec) => rec,
            None => return Err(ObsidianError::RequestError(ReqError::NoAuth)),
        };
        if rec.token_id != self.token_id {
            return Err(ObsidianError::RequestError(ReqError::NoAuth));
        }
        let age = now.micros as i128 - rec.created_at.micros as i128;
        if age >= TOKEN_TTL_MICROS as i128 {
            return Err(ObsidianError::RequestError(ReqError::NoAuth));
        }
        if password_matches(self.secret.as_str(), rec.hashed_secret.as_str()) {
            Ok(rec.school_id)
        } else {
            Err(ObsidianError::RequestError(ReqError::NoAuth))
        }
    }

    /// Checks the credential for a logout, as `verify` does; on success the
    /// result is the id of the token that is to be deleted, and on failure
    /// nothing is to be deleted.
    pub fn verify_and_delete(&self, record: Option<&TokenRecord>, now: Timestamp) -> (r: Result<
        usize,
        ObsidianError,
    >)
        ensures
            r is Ok <==> verify_outcome(self.token_id, self.secret@, record_view(record), now) is Ok,
            r is Ok ==> r->Ok_0 == self.token_id,
            r is Err ==> r == verify_outcome(self.token_id, self.secret@, record_view(record), now),
    {
        match self.verify(record, now) {
            Ok(_) => Ok(self.token_id),
            Err(e) => Err(e),
        }
    }
}

/// Accepts the number of tokens that a logout deleted only if there was one.
pub fn accept_logout(deleted: u64) -> (r: Result<(), ObsidianError>)
    ensures
        r is Ok <==> deleted >= 1,
        r is Err ==> r == Err::<(), ObsidianError>(ObsidianError::RequestError(ReqError::NoAuth)),
{
    if deleted >= 1 {
        Ok(())
    } else {
        Err(ObsidianError::RequestError(ReqError::NoAuth))
    }
}

} // verus!
