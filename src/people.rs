use vstd::prelude::*;

use crate::books::{Book, BookView};
use crate::clock::{rfc3339_of, Timestamp};
use crate::error::ObsidianError;
use crate::json::{
    body_payload, body_record, field_of, i32_field, i32_of, read_all, read_one, text_field, text_of,
    views, FromJson, JsonValue,
};

verus! {

/// A book that a person holds, as listed with that person: the id of the
/// lending or base-set entry, when it was made, and the book.
#[derive(Debug)]
pub struct LentBook {
    pub id: usize,
    pub created_at: String,
    pub book: Book,
}

pub struct LentBookView {
    pub id: usize,
    pub created_at: Seq<char>,
    pub book: BookView,
}

impl View for LentBook {
    type V = LentBookView;

    open spec fn view(&self) -> LentBookView {
        LentBookView { id: self.id, created_at: self.created_at@, book: self.book@ }
    }
}

impl LentBook {
    pub fn new(id: usize, created_at: String, book: Book) -> (r: LentBook)
        ensures
            r@ == (LentBookView { id, created_at: created_at@, book: book@ }),
    {
        LentBook { id, created_at, book }
    }
}

impl LentBook {
    /// A listed book whose entry was made at `created_at`, with the time
    /// written as RFC 3339 text; none if the time cannot be written.
    pub fn stamped(id: usize, created_at: Timestamp, book: Book) -> (r: Option<LentBook>)
        ensures
            match r {
                Some(l) => rfc3339_of(created_at.micros) == Some(l.created_at@) && l.id == id
                    && l.book@ == book@,
                None => rfc3339_of(created_at.micros) is None,
            },
    {
        match created_at.to_rfc3339() {
            Some(text) => Some(LentBook { id, created_at: text, book }),
            None => None,
        }
    }
}

pub open spec fn opt_views(v: Option<Vec<LentBook>>) -> Option<Seq<LentBookView>> {
    match v {
        Some(b) => Some(views(b@)),
        None => None,
    }
}

/// A student of a school.
#[derive(Debug)]
pub struct Student {
    pub id: Option<usize>,
    pub name: String,
    pub class_letter: String,
    pub graduation_year: i32,
    pub lent_books: Option<Vec<LentBook>>,
    pub base_sets: Option<Vec<LentBook>>,
}

pub struct StudentView {
    pub id: Option<usize>,
    pub name: Seq<char>,
    pub class_letter: Seq<char>,
    pub graduation_year: i32,
    pub lent_books: Option<Seq<LentBookView>>,
    pub base_sets: Option<Seq<LentBookView>>,
}

impl View for Student {
    type V = StudentView;

    open spec fn view(&self) -> StudentView {
        StudentView {
            id: self.id,
            name: self.name@,
            class_letter: self.class_letter@,
            graduation_year: self.graduation_year,
            lent_books: opt_views(self.lent_books),
            base_sets: opt_views(self.base_sets),
        }
    }
}

impl Student {
    /// A student without relations loaded.
    pub fn new(id: Option<usize>, name: String, class_letter: String, graduation_year: i32) -> (r:
        Student)
        ensures
            r@ == (StudentView {
                id,
                name: name@,
                class_letter: class_letter@,
                graduation_year,
                lent_books: None,
                base_sets: None,
            }),
    {
        Student { id, name, class_letter, graduation_year, lent_books: None, base_sets: None }
    }

    /// The same student with the books lent to them loaded.
    pub fn with_lendings(self, books: Vec<LentBook>) -> (r: Student)
        ensures
            r@ == (StudentView { lent_books: Some(views(books@)), ..self@ }),
    {
        Student { lent_books: Some(books), ..self }
    }

    /// The same student with their base-set books loaded.
    pub fn with_base_sets(self, books: Vec<LentBook>) -> (r: Student)
        ensures
            r@ == (StudentView { base_sets: Some(views(books@)), ..self@ }),
    {
        Student { base_sets: Some(books), ..self }
    }

    /// The same student under the id that storage gave them.
    pub fn with_id(self, id: usize) -> (r: Student)
        ensures
            r@ == (StudentView { id: Some(id), ..self@ }),
    {
        Student { id: Some(id), ..self }
    }
}

/// The time at which student records are read; students carry no time
/// stamp, so any will do.
pub open spec fn reading_time() -> Timestamp {
    Timestamp { micros: 0 }
}

impl Student {
    /// Reads a student from a request body.
    pub fn from_str(body: &str) -> (r: Result<Student, ObsidianError>)
        ensures
            match r {
                Ok(x) => body_record::<Student>(body@, reading_time()) == Some(x@),
                Err(e) => e == ObsidianError::ParseError && body_record::<Student>(
                    body@,
                    reading_time(),
                ) is None,
            },
    {
        read_one::<Student>(body, Timestamp { micros: 0 })
    }

    /// Reads the students of a create body: the one it describes, or those
    /// that the elements of its array describe.
    pub fn many_from_str(body: &str) -> (r: Vec<Student>)
        ensures
            views(r@) == match body_payload::<Student>(body@, reading_time()) {
                Some(xs) => xs,
                None => Seq::empty(),
            },
    {
        read_all::<Student>(body, Timestamp { micros: 0 })
    }
}

impl FromJson for Student {
    /// `name`, `class_letter` and `graduation_year` are required; a
    /// client-given `id` is not taken over.
    open spec fn decoded(v: JsonValue, now: Timestamp) -> Option<StudentView> {
        match (
            text_of(field_of(v, "name"@)),
            text_of(field_of(v, "class_letter"@)),
            i32_of(field_of(v, "graduation_year"@)),
        ) {
            (Some(name), Some(class_letter), Some(graduation_year)) => Some(
                StudentView {
                    id: None,
                    name,
                    class_letter,
                    graduation_year,
                    lent_books: None,
                    base_sets: None,
                },
            ),
            _ => None,
        }
    }

    fn from_json(v: &JsonValue, now: Timestamp) -> (r: Option<Student>) {
        let name = text_field(v, "name");
        let class_letter = text_field(v, "class_letter");
        let year = i32_field(v, "graduation_year");
        match (name, class_letter, year) {
            (Some(name), Some(class_letter), Some(year)) => Some(
                Student::new(None, name, class_letter, year),
            ),
            _ => None,
        }
    }
}

/// A teacher of a school.
#[derive(Debug)]
pub struct Teacher {
    pub id: Option<usize>,
    pub name: String,
    pub lent_books: Option<Vec<LentBook>>,
}

pub struct TeacherView {
    pub id: Option<usize>,
    pub name: Seq<char>,
    pub lent_books: Option<Seq<LentBookView>>,
}

impl View for Teacher {
    type V = TeacherView;

    open spec fn view(&self) -> TeacherView {
        TeacherView { id: self.id, name: self.name@, lent_books: opt_views(self.lent_books) }
    }
}

impl Teacher {
    /// A teacher without relations loaded.
    pub fn new(id: Option<usize>, name: String) -> (r: Teacher)
        ensures
            r@ == (TeacherView { id, name: name@, lent_books: None }),
    {
        Teacher { id, name, lent_books: None }
    }

    /// The same teacher with the books lent to them loaded.
    pub fn with_lendings(self, books: Vec<LentBook>) -> (r: Teacher)
        ensures
            r@ == (TeacherView { lent_books: Some(views(books@)), ..self@ }),
    {
        Teacher { lent_books: Some(books), ..self }
    }

    /// The same teacher under the id that storage gave them.
    pub fn with_id(self, id: usize) -> (r: Teacher)
        ensures
            r@ == (TeacherView { id: Some(id), ..self@ }),
    {
        Teacher { id: Some(id), ..self }
    }
}

impl FromJson for Teacher {
    /// `name` is required; a client-given `id` is not taken over.
    open spec fn decoded(v: JsonValue, now: Timestamp) -> Option<TeacherView> {
        match text_of(field_of(v, "name"@)) {
            Some(name) => Some(TeacherView { id: None, name, lent_books: None }),
            None => None,
        }
    }

    fn from_json(v: &JsonValue, now: Timestamp) -> (r: Option<Teacher>) {
        match text_field(v, "name") {
            Some(name) => Some(Teacher::new(None, name)),
            None => None,
        }
    }
}

} // verus!
