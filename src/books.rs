use vstd::prelude::*;

use crate::clock::Timestamp;
use crate::resources::ResourceKind;
use crate::json::{
    field_of, opt_usize_field, opt_usize_of, text_field, text_of, usize_field, usize_of, views,
    FromJson, JsonValue,
};

verus! {

/// An alternate name under which a book can be found.
#[derive(Debug)]
pub struct Alias {
    pub id: Option<usize>,
    pub book_id: usize,
    pub name: String,
}

pub struct AliasView {
    pub id: Option<usize>,
    pub book_id: usize,
    pub name: Seq<char>,
}

impl View for Alias {
    type V = AliasView;

    open spec fn view(&self) -> AliasView {
        AliasView { id: self.id, book_id: self.book_id, name: self.name@ }
    }
}

impl Alias {
    pub fn new(id: Option<usize>, book_id: usize, name: String) -> (r: Alias)
        ensures
            r@ == (AliasView { id, book_id, name: name@ }),
    {
        Alias { id, book_id, name }
    }

    /// The records that must exist for the school before the alias is
    /// inserted: its book.
    pub fn parents(&self) -> (r: Vec<(ResourceKind, usize)>)
        ensures
            r@ == seq![(ResourceKind::Book, self.book_id)],
    {
        vec![(ResourceKind::Book, self.book_id)]
    }

    /// The same alias under the id that storage gave it.
    pub fn with_id(self, id: usize) -> (r: Alias)
        ensures
            r@ == (AliasView { id: Some(id), ..self@ }),
    {
        Alias { id: Some(id), ..self }
    }
}

impl FromJson for Alias {
    /// `book_id` and `name` are required; `id` may be absent or `null`.
    open spec fn decoded(v: JsonValue, now: Timestamp) -> Option<AliasView> {
        match (
            opt_usize_of(field_of(v, "id"@)),
            usize_of(field_of(v, "book_id"@)),
            text_of(field_of(v, "name"@)),
        ) {
            (Some(id), Some(book_id), Some(name)) => Some(AliasView { id, book_id, name }),
            _ => None,
        }
    }

    fn from_json(v: &JsonValue, now: Timestamp) -> (r: Option<Alias>) {
        let id = opt_usize_field(v, "id");
        let book_id = usize_field(v, "book_id");
        let name = text_field(v, "name");
        match (id, book_id, name) {
            (Some(id), Some(book_id), Some(name)) => Some(Alias { id, book_id, name }),
            _ => None,
        }
    }
}

/// A book title held by a school.
#[derive(Debug)]
pub struct Book {
    pub id: Option<usize>,
    pub isbn: String,
    pub title: String,
    pub form: String,
    pub aliases: Option<Vec<Alias>>,
}

pub struct BookView {
    pub id: Option<usize>,
    pub isbn: Seq<char>,
    pub title: Seq<char>,
    pub form: Seq<char>,
    pub aliases: Option<Seq<AliasView>>,
}

impl View for Book {
    type V = BookView;

    open spec fn view(&self) -> BookView {
        BookView {
            id: self.id,
            isbn: self.isbn@,
            title: self.title@,
            form: self.form@,
            aliases: match self.aliases {
                Some(a) => Some(views(a@)),
                None => None,
            },
        }
    }
}

impl Book {
    /// A book without its aliases loaded.
    pub fn new(id: Option<usize>, isbn: String, title: String, form: String) -> (r: Book)
        ensures
            r@ == (BookView { id, isbn: isbn@, title: title@, form: form@, aliases: None }),
    {
        Book { id, isbn, title, form, aliases: None }
    }

    /// The same book with its aliases loaded.
    pub fn with_aliases(self, aliases: Vec<Alias>) -> (r: Book)
        ensures
            r@ == (BookView { aliases: Some(views(aliases@)), ..self@ }),
    {
        Book { aliases: Some(aliases), ..self }
    }

    /// The same book under the id that storage gave it.
    pub fn with_id(self, id: usize) -> (r: Book)
        ensures
            r@ == (BookView { id: Some(id), ..self@ }),
    {
        Book { id: Some(id), ..self }
    }
}

impl FromJson for Book {
    /// `isbn`, `title` and `form` are required; a client-given `id` is not
    /// taken over.
    open spec fn decoded(v: JsonValue, now: Timestamp) -> Option<BookView> {
        match (
            text_of(field_of(v, "isbn"@)),
            text_of(field_of(v, "title"@)),
            text_of(field_of(v, "form"@)),
        ) {
            (Some(isbn), Some(title), Some(form)) => Some(
                BookView { id: None, isbn, title, form, aliases: None },
            ),
            _ => None,
        }
    }

    fn from_json(v: &JsonValue, now: Timestamp) -> (r: Option<Book>) {
        let isbn = text_field(v, "isbn");
        let title = text_field(v, "title");
        let form = text_field(v, "form");
        match (isbn, title, form) {
            (Some(isbn), Some(title), Some(form)) => Some(Book::new(None, isbn, title, form)),
            _ => None,
        }
    }
}

} // verus!
