use vstd::prelude::*;

use crate::error::{Entity, ObsidianError};
use crate::includes::{Includable, Includes};

verus! {

/// The tenant-scoped resource types.
#[derive(Debug, Clone, Copy, PartialEq, Eq, Structural)]
pub enum ResourceKind {
    Student,
    Teacher,
    Book,
    Alias,
    BaseSet,
    Lending,
}

/// The key columns of a row that a lookup returned: its id and the school
/// that owns it.
#[derive(Debug, Clone, Copy, PartialEq, Eq, Structural)]
pub struct RowKey {
    pub id: usize,
    pub school_id: usize,
}

/// The first of `order` that `inc` holds.
pub open spec fn first_in(order: Seq<Includable>, inc: Set<Includable>) -> Option<Includable>
    decreases order.len(),
{
    if order.len() == 0 {
        None
    } else if inc.contains(order[0]) {
        Some(order[0])
    } else {
        first_in(order.subrange(1, order.len() as int), inc)
    }
}

impl ResourceKind {
    pub open spec fn entity_of(self) -> Entity {
        match self {
            ResourceKind::Student => Entity::Student,
            ResourceKind::Teacher => Entity::Teacher,
            ResourceKind::Book => Entity::Book,
            ResourceKind::Alias => Entity::Alias,
            ResourceKind::BaseSet => Entity::BaseSet,
            ResourceKind::Lending => Entity::Lending,
        }
    }

    /// The name under which a missing record of this kind is reported.
    pub fn entity(&self) -> (r: Entity)
        ensures
            r == self.entity_of(),
    {
        match self {
            ResourceKind::Student => Entity::Student,
            ResourceKind::Teacher => Entity::Teacher,
            ResourceKind::Book => Entity::Book,
            ResourceKind::Alias => Entity::Alias,
            ResourceKind::BaseSet => Entity::BaseSet,
            ResourceKind::Lending => Entity::Lending,
        }
    }

    /// The relations this kind cannot load, in the order they are checked.
    pub open spec fn refused(self) -> Seq<Includable> {
        match self {
            ResourceKind::Student => seq![Includable::Aliases],
            ResourceKind::Teacher => seq![Includable::BaseSetBooks, Includable::Aliases],
            ResourceKind::Book => seq![Includable::BaseSetBooks, Includable::LentBooks],
            _ => seq![Includable::LentBooks, Includable::BaseSetBooks, Includable::Aliases],
        }
    }

    pub open spec fn supports(self, t: Includable) -> bool {
        !self.refused().contains(t)
    }

    fn refused_list(&self) -> (r: Vec<Includable>)
        ensures
            r@ == self.refused(),
    {
        match self {
            ResourceKind::Student => vec![Includable::Aliases],
            ResourceKind::Teacher => vec![Includable::BaseSetBooks, Includable::Aliases],
            ResourceKind::Book => vec![Includable::BaseSetBooks, Includable::LentBooks],
            _ => vec![Includable::LentBooks, Includable::BaseSetBooks, Includable::Aliases],
        }
    }

    /// Fails on the first requested relation that this kind cannot load,
    /// before any storage is touched.
    pub fn check_includes(&self, includes: &Includes) -> (r: Result<(), ObsidianError>)
        ensures
            match first_in(self.refused(), includes@) {
                Some(t) => r == Err::<(), ObsidianError>(ObsidianError::IncludeNotSupported(t)),
                None => r is Ok,
            },
    {
        let order = self.refused_list();
        let mut i: usize = 0;
        assert(order@.subrange(0, order@.len() as int) =~= order@);
        while i < order.len()
            invariant
                order@ == self.refused(),
                i <= order@.len(),
                first_in(order@, includes@) == first_in(
                    order@.subrange(i as int, order@.len() as int),
                    includes@,
                ),
            decreases order.len() - i,
        {
            let t = order[i];
            let ghost rest = order@.subrange(i as int, order@.len() as int);
            assert(rest[0] == t);
            if includes.contains(t) {
                return Err(ObsidianError::IncludeNotSupported(t));
            }
            assert(rest.subrange(1, rest.len() as int) =~= order@.subrange(
                i + 1,
                order@.len() as int,
            ));
            i += 1;
        }
        Ok(())
    }

    /// Accepts a row that a lookup of `id` for `school_id` returned only if
    /// it is that record and that school owns it.
    pub fn accept_fetched(&self, id: usize, school_id: usize, row: Option<RowKey>) -> (r: Result<
        (),
        ObsidianError,
    >)
        ensures
            r == fetch_outcome(*self, id, school_id, row),
    {
        match row {
            Some(k) => if k.id == id && k.school_id == school_id {
                Ok(())
            } else {
                Err(ObsidianError::RecordNotFound(self.entity()))
            },
            None => Err(ObsidianError::RecordNotFound(self.entity())),
        }
    }

    /// Accepts the number of rows that an update or delete of one record
    /// changed only if it is exactly one.
    pub fn accept_modified(&self, modified: u64) -> (r: Result<(), ObsidianError>)
        ensures
            r == modified_outcome(self.entity_of(), modified),
    {
        self.entity().accept_modified(modified)
    }
}

/// The id that storage assigned to an inserted record; an insert that
/// returned no id is a storage failure.
pub fn accept_inserted(returned: Option<usize>) -> (r: Result<usize, ObsidianError>)
    ensures
        match returned {
            Some(id) => r == Ok::<usize, ObsidianError>(id),
            None => r == Err::<usize, ObsidianError>(ObsidianError::PostgresError),
        },
{
    match returned {
        Some(id) => Ok(id),
        None => Err(ObsidianError::PostgresError),
    }
}

/// A lookup succeeds only on the requested record of the requesting school.
pub open spec fn fetch_outcome(kind: ResourceKind, id: usize, school_id: usize, row: Option<RowKey>) -> Result<
    (),
    ObsidianError,
> {
    if row == Some(RowKey { id, school_id }) {
        Ok(())
    } else {
        Err(ObsidianError::RecordNotFound(kind.entity_of()))
    }
}

/// A change of one record succeeds only if exactly one row changed.
pub open spec fn modified_outcome(entity: Entity, modified: u64) -> Result<(), ObsidianError> {
    if modified == 1 {
        Ok(())
    } else {
        Err(ObsidianError::RecordNotFound(entity))
    }
}

impl Entity {
    /// Accepts the number of rows that a change of one record touched only
    /// if it is exactly one.
    pub fn accept_modified(&self, modified: u64) -> (r: Result<(), ObsidianError>)
        ensures
            r == modified_outcome(*self, modified),
    {
        if modified == 1 {
            Ok(())
        } else {
            Err(ObsidianError::RecordNotFound(*self))
        }
    }
}

/// The next thing a create does, given the records it depends on.
#[derive(Debug, Clone, Copy, PartialEq, Eq, Structural)]
pub enum CreateAction {
    /// Look up this record for the school and report what was found.
    LookUp(ResourceKind, usize),
    /// Every record it depends on exists: insert.
    Insert,
    /// A record it depends on is missing: give up without inserting.
    Fail(ObsidianError),
}

/// The next action of a create for `school_id` whose record depends on
/// `parents`, once the first of them have been looked up with the rows in
/// `found` (from position `i` on).
pub open spec fn create_action(
    parents: Seq<(ResourceKind, usize)>,
    school_id: usize,
    found: Seq<Option<RowKey>>,
    i: int,
) -> CreateAction
    decreases parents.len() - i,
{
    if i < 0 || i >= parents.len() {
        CreateAction::Insert
    } else if i >= found.len() {
        CreateAction::LookUp(parents[i].0, parents[i].1)
    } else if fetch_outcome(parents[i].0, parents[i].1, school_id, found[i]) is Err {
        CreateAction::Fail(ObsidianError::RecordNotFound(parents[i].0.entity_of()))
    } else {
        create_action(parents, school_id, found, i + 1)
    }
}

/// Decides the next step of a create: look the dependencies up one by one
/// in order, stop at the first that the school does not own, and insert
/// only once all of them were found.
pub fn next_create_action(
    parents: &Vec<(ResourceKind, usize)>,
    school_id: usize,
    found: &Vec<Option<RowKey>>,
) -> (r: CreateAction)
    ensures
        r == create_action(parents@, school_id, found@, 0),
        r == CreateAction::Insert ==> found@.len() >= parents@.len() && forall|i: int|
            0 <= i < parents@.len() ==> #[trigger] fetch_outcome(
                parents@[i].0,
                parents@[i].1,
                school_id,
                found@[i],
            ) is Ok,
{
    let mut i: usize = 0;
    while i < parents.len()
        invariant
            i <= parents@.len(),
            create_action(parents@, school_id, found@, 0) == create_action(
                parents@,
                school_id,
                found@,
                i as int,
            ),
            i <= found@.len(),
            forall|k: int|
                0 <= k < i ==> #[trigger] fetch_outcome(
                    parents@[k].0,
                    parents@[k].1,
                    school_id,
                    found@[k],
                ) is Ok,
        decreases parents.len() - i,
    {
        let (kind, id) = parents[i];
        if i >= found.len() {
            return CreateAction::LookUp(kind, id);
        }
        if kind.accept_fetched(id, school_id, found[i]).is_err() {
            return CreateAction::Fail(ObsidianError::RecordNotFound(kind.entity()));
        }
        i += 1;
    }
    CreateAction::Insert
}

} // verus!
