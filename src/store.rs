//! A model of what the storage statements do, and the laws that the
//! library's checks give over it.

use vstd::prelude::*;

use crate::clock::Timestamp;
use crate::error::{ObsidianError, ReqError};
use crate::people::StudentView;
use crate::resources::{fetch_outcome, modified_outcome, ResourceKind, RowKey};
use crate::secrets::bcrypt_accepts;
use crate::sessions::{is_fresh, verify_outcome, TokenRecordView};

verus! {

/// A tenant-scoped table: for each record id, the owning school and the
/// stored columns.
pub type Table<F> = Map<usize, (usize, F)>;

/// Whether `school` owns record `id`.
pub open spec fn owns<F>(t: Table<F>, id: usize, school: usize) -> bool {
    t.contains_key(id) && t[id].0 == school
}

/// The key of the row that a lookup by id and school
/// (`WHERE id = $1 AND school_id = $2`) returns.
pub open spec fn select_scoped<F>(t: Table<F>, id: usize, school: usize) -> Option<RowKey> {
    if owns(t, id, school) {
        Some(RowKey { id, school_id: school })
    } else {
        None
    }
}

/// The number of rows that an update or delete by id and school touches.
pub open spec fn touched_scoped<F>(t: Table<F>, id: usize, school: usize) -> u64 {
    if owns(t, id, school) {
        1
    } else {
        0
    }
}

/// The table after a delete by id and school.
pub open spec fn delete_scoped<F>(t: Table<F>, id: usize, school: usize) -> Table<F> {
    if owns(t, id, school) {
        t.remove(id)
    } else {
        t
    }
}

/// A school never reaches a record that another school owns: a lookup, an
/// update and a delete issued for the other school all report the record
/// as missing. The lookup is refused even where storage hands back the
/// owner's row.
pub proof fn lemma_tenant_isolation<F>(
    kind: ResourceKind,
    t: Table<F>,
    id: usize,
    owner: usize,
    other: usize,
    row: Option<RowKey>,
)
    requires
        owner != other,
        owns(t, id, owner),
        row == Some(RowKey { id, school_id: owner }),
    ensures
        fetch_outcome(kind, id, other, select_scoped(t, id, other)) == Err::<(), ObsidianError>(
            ObsidianError::RecordNotFound(kind.entity_of()),
        ),
        fetch_outcome(kind, id, other, row) == Err::<(), ObsidianError>(
            ObsidianError::RecordNotFound(kind.entity_of()),
        ),
        modified_outcome(kind.entity_of(), touched_scoped(t, id, other)) == Err::<
            (),
            ObsidianError,
        >(ObsidianError::RecordNotFound(kind.entity_of())),
{
}

/// Deleting a record a second time reports it as missing.
pub proof fn lemma_delete_twice<F>(kind: ResourceKind, t: Table<F>, id: usize, school: usize)
    ensures
        modified_outcome(kind.entity_of(), touched_scoped(delete_scoped(t, id, school), id, school))
            == Err::<(), ObsidianError>(ObsidianError::RecordNotFound(kind.entity_of())),
{
}

/// The columns of a student that the client supplies.
pub open spec fn student_columns(x: StudentView) -> (Seq<char>, Seq<char>, i32) {
    (x.name, x.class_letter, x.graduation_year)
}

/// The student that `Student::new` builds from a stored row.
pub open spec fn student_of_row(id: usize, cols: (Seq<char>, Seq<char>, i32)) -> StudentView {
    StudentView {
        id: Some(id),
        name: cols.0,
        class_letter: cols.1,
        graduation_year: cols.2,
        lent_books: None,
        base_sets: None,
    }
}

/// A student inserted for a school under a fresh id is found again by that
/// id for that school, with every client-supplied field as it was.
pub proof fn lemma_student_round_trip(
    t: Table<(Seq<char>, Seq<char>, i32)>,
    school: usize,
    new_id: usize,
    x: StudentView,
)
    requires
        !t.contains_key(new_id),
    ensures
        ({
            let t2 = t.insert(new_id, (school, student_columns(x)));
            let back = student_of_row(new_id, t2[new_id].1);
            &&& fetch_outcome(ResourceKind::Student, new_id, school, select_scoped(t2, new_id, school))
                is Ok
            &&& back.name == x.name
            &&& back.class_letter == x.class_letter
            &&& back.graduation_year == x.graduation_year
            &&& back.id == Some(new_id)
        }),
{
    let t2 = t.insert(new_id, (school, student_columns(x)));
    assert(owns(t2, new_id, school));
}

/// The stored tokens, by token id.
pub type Tokens = Map<usize, TokenRecordView>;

/// Every stored token sits under its own id.
pub open spec fn keyed(t: Tokens) -> bool {
    forall|k: usize| t.contains_key(k) ==> (#[trigger] t[k]).token_id == k
}

/// The token that a lookup by id returns.
pub open spec fn lookup_token(t: Tokens, id: usize) -> Option<TokenRecordView> {
    if t.contains_key(id) {
        Some(t[id])
    } else {
        None
    }
}

/// A credential authenticates exactly when the token stored under its id
/// is younger than the time to live and its secret matches the stored hash;
/// the stored token of any other id never authenticates it.
pub proof fn lemma_verify_exact(t: Tokens, token_id: usize, secret: Seq<char>, now: Timestamp, other: usize)
    requires
        keyed(t),
        other != token_id,
        t.contains_key(other),
    ensures
        verify_outcome(token_id, secret, lookup_token(t, token_id), now) is Ok <==> (t.contains_key(
            token_id,
        ) && is_fresh(t[token_id].created_at, now) && bcrypt_accepts(
            secret,
            t[token_id].hashed_secret,
        )),
        verify_outcome(token_id, secret, Some(t[other]), now) == Err::<usize, ObsidianError>(
            ObsidianError::RequestError(ReqError::NoAuth),
        ),
{
}

/// The stored tokens after a logout with a credential at `now`: on success
/// the token is deleted with every expired one; on failure nothing changes.
pub open spec fn after_logout(t: Tokens, token_id: usize, secret: Seq<char>, now: Timestamp) -> Tokens {
    if verify_outcome(token_id, secret, lookup_token(t, token_id), now) is Ok {
        t.restrict(Set::new(|k: usize| t.contains_key(k) && is_fresh(t[k].created_at, now))).remove(
            token_id,
        )
    } else {
        t
    }
}

/// A logout is all or nothing: once it succeeds the credential no longer
/// authenticates at any time, and when it fails the stored tokens are as
/// they were.
pub proof fn lemma_logout_atomic(
    t: Tokens,
    token_id: usize,
    secret: Seq<char>,
    now: Timestamp,
    later: Timestamp,
)
    ensures
        verify_outcome(token_id, secret, lookup_token(t, token_id), now) is Ok ==> verify_outcome(
            token_id,
            secret,
            lookup_token(after_logout(t, token_id, secret, now), token_id),
            later,
        ) is Err,
        verify_outcome(token_id, secret, lookup_token(t, token_id), now) is Err ==> after_logout(
            t,
            token_id,
            secret,
            now,
        ) == t,
{
}

} // verus!
