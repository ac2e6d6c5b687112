use vstd::prelude::*;

use crate::clock::Timestamp;
use crate::json::{field_of, text_field, text_of, usize_field, usize_of, FromJson, JsonValue};
use crate::resources::ResourceKind;
use crate::text::same_text;

verus! {

/// The person a book is lent to.
#[derive(Debug, Clone, Copy, PartialEq, Eq, Structural)]
pub enum Person {
    Student(usize),
    Teacher(usize),
}

/// The person that a `person_type` tag and a `person_id` name.
pub open spec fn person_of(person_type: Seq<char>, person_id: usize) -> Option<Person> {
    if person_type == "student"@ {
        Some(Person::Student(person_id))
    } else if person_type == "teacher"@ {
        Some(Person::Teacher(person_id))
    } else {
        None
    }
}

impl Person {
    /// The person that a `person_type` tag (`student` or `teacher`) and an
    /// id name; none for any other tag.
    pub fn from_parts(person_type: &str, person_id: usize) -> (r: Option<Person>)
        ensures
            r == person_of(person_type@, person_id),
    {
        if same_text(person_type, "student") {
            Some(Person::Student(person_id))
        } else if same_text(person_type, "teacher") {
            Some(Person::Teacher(person_id))
        } else {
            None
        }
    }

    /// The `person_type` tag.
    pub fn tag(&self) -> (r: &'static str)
        ensures
            person_of(r@, self.id_of()) == Some(*self),
    {
        proof {
            reveal_strlit("student");
            reveal_strlit("teacher");
            assert("teacher"@[0] != "student"@[0]);
        }
        match self {
            Person::Student(_) => "student",
            Person::Teacher(_) => "teacher",
        }
    }

    pub open spec fn id_of(self) -> usize {
        match self {
            Person::Student(id) => id,
            Person::Teacher(id) => id,
        }
    }

    pub open spec fn kind_of(self) -> ResourceKind {
        match self {
            Person::Student(_) => ResourceKind::Student,
            Person::Teacher(_) => ResourceKind::Teacher,
        }
    }

    pub fn id(&self) -> (r: usize)
        ensures
            r == self.id_of(),
    {
        match self {
            Person::Student(id) => *id,
            Person::Teacher(id) => *id,
        }
    }

    /// The resource type of the person.
    pub fn kind(&self) -> (r: ResourceKind)
        ensures
            r == self.kind_of(),
    {
        match self {
            Person::Student(_) => ResourceKind::Student,
            Person::Teacher(_) => ResourceKind::Teacher,
        }
    }
}

/// A book assigned for good to a student's base set.
#[derive(Debug, Clone, Copy, PartialEq, Eq, Structural)]
pub struct BaseSet {
    pub id: Option<usize>,
    pub student_id: usize,
    pub book_id: usize,
    pub created_at: Timestamp,
}

impl View for BaseSet {
    type V = BaseSet;

    open spec fn view(&self) -> BaseSet {
        *self
    }
}

impl BaseSet {
    pub fn new(id: Option<usize>, student_id: usize, book_id: usize, created_at: Timestamp) -> (r:
        BaseSet)
        ensures
            r == (BaseSet { id, student_id, book_id, created_at }),
    {
        BaseSet { id, student_id, book_id, created_at }
    }

    /// The same entry under the id that storage gave it.
    pub fn with_id(self, id: usize) -> (r: BaseSet)
        ensures
            r == (BaseSet { id: Some(id), ..self }),
    {
        BaseSet { id: Some(id), ..self }
    }

    /// The records that must exist for the school before the entry is
    /// inserted: the book, then the student.
    pub fn parents(&self) -> (r: Vec<(ResourceKind, usize)>)
        ensures
            r@ == seq![(ResourceKind::Book, self.book_id), (ResourceKind::Student, self.student_id)],
    {
        vec![(ResourceKind::Book, self.book_id), (ResourceKind::Student, self.student_id)]
    }
}

impl FromJson for BaseSet {
    /// `student_id` and `book_id` are required; the entry is made at `now`.
    open spec fn decoded(v: JsonValue, now: Timestamp) -> Option<BaseSet> {
        match (usize_of(field_of(v, "student_id"@)), usize_of(field_of(v, "book_id"@))) {
            (Some(student_id), Some(book_id)) => Some(
                BaseSet { id: None, student_id, book_id, created_at: now },
            ),
            _ => None,
        }
    }

    fn from_json(v: &JsonValue, now: Timestamp) -> (r: Option<BaseSet>) {
        match (usize_field(v, "student_id"), usize_field(v, "book_id")) {
            (Some(student_id), Some(book_id)) => Some(
                BaseSet { id: None, student_id, book_id, created_at: now },
            ),
            _ => None,
        }
    }
}

/// A book lent for a time to a student or a teacher.
#[derive(Debug, Clone, Copy, PartialEq, Eq, Structural)]
pub struct Lending {
    pub id: Option<usize>,
    pub created_at: Timestamp,
    pub person: Person,
    pub book_id: usize,
}

impl View for Lending {
    type V = Lending;

    open spec fn view(&self) -> Lending {
        *self
    }
}

impl Lending {
    pub fn new(id: Option<usize>, created_at: Timestamp, person: Person, book_id: usize) -> (r:
        Lending)
        ensures
            r == (Lending { id, created_at, person, book_id }),
    {
        Lending { id, created_at, person, book_id }
    }

    /// The same lending under the id that storage gave it.
    pub fn with_id(self, id: usize) -> (r: Lending)
        ensures
            r == (Lending { id: Some(id), ..self }),
    {
        Lending { id: Some(id), ..self }
    }

    /// The records that must exist for the school before the lending is
    /// inserted: the person, then the book.
    pub fn parents(&self) -> (r: Vec<(ResourceKind, usize)>)
        ensures
            r@ == seq![
                (self.person.kind_of(), self.person.id_of()),
                (ResourceKind::Book, self.book_id),
            ],
    {
        vec![(self.person.kind(), self.person.id()), (ResourceKind::Book, self.book_id)]
    }
}

impl FromJson for Lending {
    /// `person_type` (`student` or `teacher`), `person_id` and `book_id` are
    /// required; the lending is made at `now`.
    open spec fn decoded(v: JsonValue, now: Timestamp) -> Option<Lending> {
        match (text_of(field_of(v, "person_type"@)), usize_of(field_of(v, "person_id"@))) {
            (Some(t), Some(pid)) => match (person_of(t, pid), usize_of(field_of(v, "book_id"@))) {
                (Some(person), Some(book_id)) => Some(
                    Lending { id: None, created_at: now, person, book_id },
                ),
                _ => None,
            },
            _ => None,
        }
    }

    fn from_json(v: &JsonValue, now: Timestamp) -> (r: Option<Lending>) {
        let person_type = match text_field(v, "person_type") {
            Some(t) => t,
            None => return None,
        };
        let person_id = match usize_field(v, "person_id") {
            Some(id) => id,
            None => return None,
        };
        let person = match Person::from_parts(person_type.as_str(), person_id) {
            Some(p) => p,
            None => return None,
        };
        match usize_field(v, "book_id") {
            Some(book_id) => Some(Lending { id: None, created_at: now, person, book_id }),
            None => None,
        }
    }
}

} // verus!
