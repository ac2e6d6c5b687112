use vstd::prelude::*;

use crate::clock::Timestamp;
use crate::error::{Entity, ObsidianError};
use crate::json::{field_of, text_field, text_of, FromJson, JsonValue};
use crate::secrets::{bcrypt_accepts, hash_password, password_matches};
use crate::text::{lower_of, lowercase};

verus! {

/// A school name and password, as given at sign-up and at login.
#[derive(Debug)]
pub struct AuthData {
    pub name: String,
    pub password: String,
}

/// A stored school, as storage returns it for a lookup by name.
#[derive(Debug)]
pub struct SchoolRecord {
    pub id: usize,
    pub hashed_password: String,
}

/// What storage keeps of a new school: its name, lower-cased for lookup,
/// and the hash of its password.
#[derive(Debug)]
pub struct NewSchool {
    pub name: String,
    pub hashed_password: String,
}

/// The outcome of a login, given the school found under the name (if any):
/// the school's id if the password matches its stored hash.
pub open spec fn login_outcome(password: Seq<char>, found: Option<(usize, Seq<char>)>) -> Result<
    usize,
    ObsidianError,
> {
    match found {
        None => Err(ObsidianError::RecordNotFound(Entity::School)),
        Some((id, hash)) => if bcrypt_accepts(password, hash) {
            Ok(id)
        } else {
            Err(ObsidianError::WrongPassword)
        },
    }
}

/// The outcome of a password check against the stored hash of a school (if
/// the school is still there).
pub open spec fn password_check(password: Seq<char>, stored: Option<Seq<char>>) -> Result<
    (),
    ObsidianError,
> {
    match stored {
        None => Err(ObsidianError::RecordNotFound(Entity::School)),
        Some(hash) => if bcrypt_accepts(password, hash) {
            Ok(())
        } else {
            Err(ObsidianError::WrongPassword)
        },
    }
}

pub open spec fn found_view(rec: Option<&SchoolRecord>) -> Option<(usize, Seq<char>)> {
    match rec {
        Some(r) => Some((r.id, r.hashed_password@)),
        None => None,
    }
}

pub open spec fn stored_view(stored: Option<&str>) -> Option<Seq<char>> {
    match stored {
        Some(h) => Some(h@),
        None => None,
    }
}

fn check_stored(password: &str, stored: Option<&str>) -> (r: Result<(), ObsidianError>)
    ensures
        r == password_check(password@, stored_view(stored)),
{
    match stored {
        None => Err(ObsidianError::RecordNotFound(Entity::School)),
        Some(hash) => if password_matches(password, hash) {
            Ok(())
        } else {
            Err(ObsidianError::WrongPassword)
        },
    }
}

impl AuthData {
    /// The name under which the school is stored and looked up.
    pub fn lookup_name(&self) -> (r: String)
        ensures
            r@ == lower_of(self.name@),
    {
        lowercase(self.name.as_str())
    }

    /// Logs in against the school that storage found under the lower-cased
    /// name.
    pub fn verify(&self, record: Option<&SchoolRecord>) -> (r: Result<usize, ObsidianError>)
        ensures
            r == login_outcome(self.password@, found_view(record)),
    {
        match record {
            None => Err(ObsidianError::RecordNotFound(Entity::School)),
            Some(rec) => if password_matches(self.password.as_str(), rec.hashed_password.as_str()) {
                Ok(rec.id)
            } else {
                Err(ObsidianError::WrongPassword)
            },
        }
    }

    /// What storage is to keep of a new school.
    pub fn save(&self) -> (r: Result<NewSchool, ObsidianError>)
        ensures
            match r {
                Ok(s) => s.name@ == lower_of(self.name@) && bcrypt_accepts(
                    self.password@,
                    s.hashed_password@,
                ),
                Err(e) => e == ObsidianError::BCryptError,
            },
    {
        match hash_password(self.password.as_str()) {
            Ok(hashed_password) => Ok(NewSchool { name: self.lookup_name(), hashed_password }),
            Err(_) => Err(ObsidianError::BCryptError),
        }
    }
}

/// A request to change a school's password.
#[derive(Debug)]
pub struct PasswordChange {
    pub old_password: String,
    pub new_password: String,
}

impl PasswordChange {
    /// Checks the old password against the stored hash (if the school is
    /// still there) and, if it matches, hashes the new one for storage.
    pub fn perform(&self, stored: Option<&str>) -> (r: Result<String, ObsidianError>)
        ensures
            password_check(self.old_password@, stored_view(stored)) is Err ==> r == Err::<
                String,
                ObsidianError,
            >(password_check(self.old_password@, stored_view(stored))->Err_0),
            password_check(self.old_password@, stored_view(stored)) is Ok ==> match r {
                Ok(h) => bcrypt_accepts(self.new_password@, h@),
                Err(e) => e == ObsidianError::BCryptError,
            },
    {
        match check_stored(self.old_password.as_str(), stored) {
            Err(e) => Err(e),
            Ok(()) => match hash_password(self.new_password.as_str()) {
                Ok(h) => Ok(h),
                Err(_) => Err(ObsidianError::BCryptError),
            },
        }
    }
}

/// A request to rename a school.
#[derive(Debug)]
pub struct NameChange {
    pub name: String,
}

impl NameChange {
    /// The new name as it is stored: lower-cased, so that logins, which
    /// look the name up lower-cased, find it.
    pub fn perform(&self) -> (r: String)
        ensures
            r@ == lower_of(self.name@),
    {
        lowercase(self.name.as_str())
    }
}

/// A request to delete a school, confirmed by its password.
#[derive(Debug)]
pub struct Deletion {
    pub password: String,
}

impl Deletion {
    /// Allows the deletion only if the password matches the stored hash.
    pub fn perform(&self, stored: Option<&str>) -> (r: Result<(), ObsidianError>)
        ensures
            r == password_check(self.password@, stored_view(stored)),
    {
        check_stored(self.password.as_str(), stored)
    }
}

pub struct AuthDataView {
    pub name: Seq<char>,
    pub password: Seq<char>,
}

impl View for AuthData {
    type V = AuthDataView;

    open spec fn view(&self) -> AuthDataView {
        AuthDataView { name: self.name@, password: self.password@ }
    }
}

impl FromJson for AuthData {
    /// `name` and `password` are required.
    open spec fn decoded(v: JsonValue, now: Timestamp) -> Option<AuthDataView> {
        match (text_of(field_of(v, "name"@)), text_of(field_of(v, "password"@))) {
            (Some(name), Some(password)) => Some(AuthDataView { name, password }),
            _ => None,
        }
    }

    fn from_json(v: &JsonValue, now: Timestamp) -> (r: Option<AuthData>) {
        match (text_field(v, "name"), text_field(v, "password")) {
            (Some(name), Some(password)) => Some(AuthData { name, password }),
            _ => None,
        }
    }
}

pub struct PasswordChangeView {
    pub old_password: Seq<char>,
    pub new_password: Seq<char>,
}

impl View for PasswordChange {
    type V = PasswordChangeView;

    open spec fn view(&self) -> PasswordChangeView {
        PasswordChangeView { old_password: self.old_password@, new_password: self.new_password@ }
    }
}

impl FromJson for PasswordChange {
    /// `old_password` and `new_password` are required.
    open spec fn decoded(v: JsonValue, now: Timestamp) -> Option<PasswordChangeView> {
        match (text_of(field_of(v, "old_password"@)), text_of(field_of(v, "new_password"@))) {
            (Some(old_password), Some(new_password)) => Some(
                PasswordChangeView { old_password, new_password },
            ),
            _ => None,
        }
    }

    fn from_json(v: &JsonValue, now: Timestamp) -> (r: Option<PasswordChange>) {
        match (text_field(v, "old_password"), text_field(v, "new_password")) {
            (Some(old_password), Some(new_password)) => Some(
                PasswordChange { old_password, new_password },
            ),
            _ => None,
        }
    }
}

impl View for NameChange {
    type V = Seq<char>;

    open spec fn view(&self) -> Seq<char> {
        self.name@
    }
}

impl FromJson for NameChange {
    /// `name` is required.
    open spec fn decoded(v: JsonValue, now: Timestamp) -> Option<Seq<char>> {
        text_of(field_of(v, "name"@))
    }

    fn from_json(v: &JsonValue, now: Timestamp) -> (r: Option<NameChange>) {
        match text_field(v, "name") {
            Some(name) => Some(NameChange { name }),
            None => None,
        }
    }
}

impl View for Deletion {
    type V = Seq<char>;

    open spec fn view(&self) -> Seq<char> {
        self.password@
    }
}

impl FromJson for Deletion {
    /// `password` is required.
    open spec fn decoded(v: JsonValue, now: Timestamp) -> Option<Seq<char>> {
        text_of(field_of(v, "password"@))
    }

    fn from_json(v: &JsonValue, now: Timestamp) -> (r: Option<Deletion>) {
        match text_field(v, "password") {
            Some(password) => Some(Deletion { password }),
            None => None,
        }
    }
}

} // verus!
