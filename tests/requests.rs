use obsidian_rust::assignments::{BaseSet, Lending, Person};
use obsidian_rust::books::{Alias, Book};
use obsidian_rust::clock::Timestamp;
use obsidian_rust::error::{Entity, ObsidianError, ReqError};
use obsidian_rust::json::{read_one, read_payload, Payload};
use obsidian_rust::middleware::{check_content_type, get_id, read_school_edit, Operation, RequestBody, SchoolEdit, SchoolID};
use obsidian_rust::people::Teacher;
use obsidian_rust::resources::{accept_inserted, next_create_action, CreateAction, ResourceKind, RowKey};
use obsidian_rust::text::parse_usize;

#[test]
fn ids_are_unsigned_decimals() {
    assert_eq!(get_id("42"), Ok(42));
    assert_eq!(get_id("+7"), Ok(7));
    assert_eq!(get_id("007"), Ok(7));
    assert_eq!(get_id("18446744073709551615"), Ok(usize::MAX));
    for bad in ["", "+", "-1", "4a", " 4", "18446744073709551616", "++1"] {
        assert_eq!(get_id(bad), Err(ObsidianError::RequestError(ReqError::NoID)));
    }
    assert_eq!(parse_usize("12"), Some(12));
}

#[test]
fn only_json_is_accepted() {
    assert_eq!(check_content_type(Some("application/json")), Ok(()));
    let wrong = Err(ObsidianError::RequestError(ReqError::WrongContentType));
    assert_eq!(check_content_type(Some("text/plain")), wrong);
    assert_eq!(check_content_type(None), wrong);
}

#[test]
fn success_statuses() {
    assert_eq!(Operation::Index.success_status(), 200);
    assert_eq!(Operation::Show.success_status(), 200);
    assert_eq!(Operation::Edit.success_status(), 200);
    assert_eq!(Operation::New.success_status(), 201);
    assert_eq!(Operation::Delete.success_status(), 204);
    let _ = (RequestBody::new(), SchoolID::new());
}

#[test]
fn books_and_aliases_are_read() {
    let t = Timestamp::from_micros(0);
    let b: Book = read_one("{\"isbn\": \"978\", \"title\": \"T\", \"form\": \"5\", \"id\": 3}", t).unwrap();
    assert_eq!((b.id, b.isbn.as_str(), b.title.as_str(), b.form.as_str()), (None, "978", "T", "5"));
    assert!(read_one::<Book>("{\"isbn\": \"978\", \"title\": \"T\"}", t).is_err());
    let a: Alias = read_one("{\"book_id\": 4, \"name\": \"N\"}", t).unwrap();
    assert_eq!((a.id, a.book_id, a.name.as_str()), (None, 4, "N"));
    let a: Alias = read_one("{\"id\": 8, \"book_id\": 4, \"name\": \"N\"}", t).unwrap();
    assert_eq!(a.id, Some(8));
    let a: Alias = read_one("{\"id\": null, \"book_id\": 4, \"name\": \"N\"}", t).unwrap();
    assert_eq!(a.id, None);
    assert!(read_one::<Alias>("{\"id\": \"x\", \"book_id\": 4, \"name\": \"N\"}", t).is_err());
    assert!(read_one::<Alias>("{\"book_id\": -4, \"name\": \"N\"}", t).is_err());
    let a = a.with_id(11);
    assert_eq!(a.id, Some(11));
    assert_eq!(a.parents(), vec![(ResourceKind::Book, 4)]);
    let b = Book::new(Some(1), "i".to_string(), "t".to_string(), "f".to_string())
        .with_aliases(vec![Alias::new(Some(2), 1, "x".to_string())]);
    assert_eq!(b.aliases.as_ref().unwrap().len(), 1);
}

#[test]
fn teachers_are_read() {
    let t: Teacher = read_one("{\"name\": \"Ms T\"}", Timestamp::from_micros(0)).unwrap();
    assert_eq!((t.id, t.name.as_str()), (None, "Ms T"));
    assert!(t.lent_books.is_none());
    assert!(read_one::<Teacher>("[]", Timestamp::from_micros(0)).is_err());
}

#[test]
fn lendings_name_a_student_or_a_teacher() {
    let now = Timestamp::from_micros(1_500_000_000_000_000);
    let l: Lending = read_one("{\"person_type\": \"teacher\", \"person_id\": 3, \"book_id\": 9}", now).unwrap();
    assert_eq!(l, Lending::new(None, now, Person::Teacher(3), 9));
    assert_eq!(l.person.tag(), "teacher");
    assert_eq!(l.parents(), vec![(ResourceKind::Teacher, 3), (ResourceKind::Book, 9)]);
    let l: Lending = read_one("{\"person_type\": \"student\", \"person_id\": 5, \"book_id\": 9}", now).unwrap();
    assert_eq!(l.person, Person::Student(5));
    assert_eq!(l.person.tag(), "student");
    assert_eq!(l.parents()[0], (ResourceKind::Student, 5));
    assert!(read_one::<Lending>("{\"person_type\": \"parent\", \"person_id\": 5, \"book_id\": 9}", now).is_err());
    assert_eq!(Person::from_parts("Student", 1), None);
    assert_eq!(l.with_id(2).id, Some(2));
}

#[test]
fn base_sets_are_stamped_and_checked_book_first() {
    let now = Timestamp::from_micros(77);
    let body = "[{\"student_id\": 1, \"book_id\": 2}, {\"student_id\": \"x\"}, {\"student_id\": 3, \"book_id\": 4}]";
    match read_payload::<BaseSet>(body, now).unwrap() {
        Payload::Many(v) => {
            assert_eq!(v, vec![BaseSet::new(None, 1, 2, now), BaseSet::new(None, 3, 4, now)]);
            assert_eq!(v[0].parents(), vec![(ResourceKind::Book, 2), (ResourceKind::Student, 1)]);
        },
        Payload::One(_) => panic!("an array is not one entry"),
    }
    assert_eq!(BaseSet::new(None, 1, 2, now).with_id(5).id, Some(5));
}

#[test]
fn school_edits_are_told_apart_by_shape() {
    match read_school_edit("{\"old_password\": \"a\", \"new_password\": \"b\", \"name\": \"n\"}").unwrap() {
        SchoolEdit::Password(p) => assert_eq!((p.old_password.as_str(), p.new_password.as_str()), ("a", "b")),
        SchoolEdit::Name(_) => panic!("a password change was read as a renaming"),
    }
    match read_school_edit("{\"name\": \"Lincoln\"}").unwrap() {
        SchoolEdit::Name(n) => assert_eq!(n.name, "Lincoln"),
        SchoolEdit::Password(_) => panic!("a renaming was read as a password change"),
    }
    assert_eq!(read_school_edit("{}").unwrap_err(), ObsidianError::ParseError);
}

#[test]
fn lookups_of_another_school_are_not_found() {
    let k = ResourceKind::Student;
    assert_eq!(k.accept_fetched(5, 1, Some(RowKey { id: 5, school_id: 1 })), Ok(()));
    let missing = Err(ObsidianError::RecordNotFound(Entity::Student));
    assert_eq!(k.accept_fetched(5, 2, Some(RowKey { id: 5, school_id: 1 })), missing);
    assert_eq!(k.accept_fetched(5, 1, Some(RowKey { id: 6, school_id: 1 })), missing);
    assert_eq!(k.accept_fetched(5, 2, None), missing);
}

#[test]
fn a_second_delete_is_not_found() {
    let k = ResourceKind::Book;
    assert_eq!(k.accept_modified(1), Ok(()));
    assert_eq!(k.accept_modified(0), Err(ObsidianError::RecordNotFound(Entity::Book)));
    assert_eq!(k.accept_modified(2), Err(ObsidianError::RecordNotFound(Entity::Book)));
    assert_eq!(Entity::School.accept_modified(0), Err(ObsidianError::RecordNotFound(Entity::School)));
    assert_eq!(accept_inserted(Some(12)), Ok(12));
    assert_eq!(accept_inserted(None), Err(ObsidianError::PostgresError));
    assert_eq!(ResourceKind::Lending.entity(), Entity::Lending);
}

#[test]
fn creates_look_up_every_parent_before_inserting() {
    let parents = vec![(ResourceKind::Book, 2), (ResourceKind::Student, 1)];
    assert_eq!(next_create_action(&parents, 7, &vec![]), CreateAction::LookUp(ResourceKind::Book, 2));
    let book = Some(RowKey { id: 2, school_id: 7 });
    assert_eq!(next_create_action(&parents, 7, &vec![book]), CreateAction::LookUp(ResourceKind::Student, 1));
    let student = Some(RowKey { id: 1, school_id: 7 });
    assert_eq!(next_create_action(&parents, 7, &vec![book, student]), CreateAction::Insert);
    assert_eq!(
        next_create_action(&parents, 7, &vec![None]),
        CreateAction::Fail(ObsidianError::RecordNotFound(Entity::Book))
    );
    let foreign = Some(RowKey { id: 1, school_id: 8 });
    assert_eq!(
        next_create_action(&parents, 7, &vec![book, foreign]),
        CreateAction::Fail(ObsidianError::RecordNotFound(Entity::Student))
    );
    assert_eq!(next_create_action(&vec![], 7, &vec![]), CreateAction::Insert);
}
