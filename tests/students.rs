use obsidian_rust::json::{keep_saved, read_payload, Payload};
use obsidian_rust::clock::Timestamp;
use obsidian_rust::error::ObsidianError;
use obsidian_rust::books::Book;
use obsidian_rust::people::{LentBook, Student};

#[test]
fn reading_works() {
    Student::from_str("{\"name\": \"דויד לבי\",\"class_letter\": \"c\",\"graduation_year\":2015}").unwrap();
    assert_eq!(Student::many_from_str("[{\"name\": \"PS\", \"class_letter\": \"a\", \"graduation_year\":2011},
    {\"name\": \"JV\", \"class_letter\": \"\", \"graduation_year\": 2017}]").len(), 2);
}

#[test]
fn student_fields_are_read() {
    let s = Student::from_str("{\"name\": \"דויד לבי\",\"class_letter\": \"c\",\"graduation_year\":2015}").unwrap();
    assert_eq!(s.name, "דויד לבי");
    assert_eq!(s.class_letter, "c");
    assert_eq!(s.graduation_year, 2015);
    assert_eq!(s.id, None);
    assert!(s.lent_books.is_none());
    assert!(s.base_sets.is_none());
}

#[test]
fn client_given_student_id_is_ignored() {
    let s = Student::from_str("{\"id\": 9, \"name\": \"A\",\"class_letter\": \"b\",\"graduation_year\":-3}").unwrap();
    assert_eq!(s.id, None);
    assert_eq!(s.graduation_year, -3);
}

#[test]
fn malformed_students_are_parse_errors() {
    assert_eq!(Student::from_str("not json").unwrap_err(), ObsidianError::ParseError);
    assert_eq!(Student::from_str("{\"name\": \"A\"}").unwrap_err(), ObsidianError::ParseError);
    assert_eq!(
        Student::from_str("{\"name\": \"A\",\"class_letter\": \"b\",\"graduation_year\": 2015.5}").unwrap_err(),
        ObsidianError::ParseError
    );
    assert_eq!(
        Student::from_str("{\"name\": \"A\",\"class_letter\": \"b\",\"graduation_year\": 3000000000}").unwrap_err(),
        ObsidianError::ParseError
    );
    assert_eq!(
        Student::from_str("{\"name\": 5,\"class_letter\": \"b\",\"graduation_year\": 2015}").unwrap_err(),
        ObsidianError::ParseError
    );
}

#[test]
fn bulk_create_keeps_the_valid_students() {
    let body = "[{\"name\": \"PS\", \"class_letter\": \"a\", \"graduation_year\": 2011},
        {\"name\": \"broken\"},
        {\"name\": \"JV\", \"class_letter\": \"\", \"graduation_year\": 2017}]";
    let students = Student::many_from_str(body);
    assert_eq!(students.len(), 2);
    assert_eq!(students[0].name, "PS");
    assert_eq!(students[1].name, "JV");
    match read_payload::<Student>(body, Timestamp::from_micros(0)).unwrap() {
        Payload::Many(v) => assert_eq!(v.len(), 2),
        Payload::One(_) => panic!("an array is not one student"),
    }
}

#[test]
fn single_object_body_is_one_student() {
    let body = "{\"name\": \"PS\", \"class_letter\": \"a\", \"graduation_year\": 2011}";
    match read_payload::<Student>(body, Timestamp::from_micros(0)).unwrap() {
        Payload::One(s) => assert_eq!(s.name, "PS"),
        Payload::Many(_) => panic!("an object is one student"),
    }
    assert_eq!(Student::many_from_str(body).len(), 1);
    assert_eq!(Student::many_from_str("{\"name\": 1}").len(), 0);
    assert!(read_payload::<Student>("{\"name\": 1}", Timestamp::from_micros(0)).is_err());
}

#[test]
fn failed_saves_are_dropped_from_a_batch() {
    let saved = keep_saved(vec![
        Ok(Student::new(Some(1), "A".to_string(), "a".to_string(), 2011)),
        Err(ObsidianError::RecordNotFound(obsidian_rust::error::Entity::Student)),
        Ok(Student::new(Some(3), "C".to_string(), "c".to_string(), 2012)),
    ]);
    assert_eq!(saved.len(), 2);
    assert_eq!(saved[0].id, Some(1));
    assert_eq!(saved[1].id, Some(3));
}

#[test]
fn student_relations_are_attached() {
    let b1 = Book::new(Some(1), "isbn1".to_string(), "T1".to_string(), "5".to_string());
    let b2 = Book::new(Some(2), "isbn2".to_string(), "T2".to_string(), "6".to_string());
    let s = Student::new(Some(42), "S".to_string(), "a".to_string(), 2020).with_base_sets(vec![
        LentBook::new(10, "2017-01-01T00:00:00+00:00".to_string(), b1),
        LentBook::new(11, "2017-01-02T00:00:00+00:00".to_string(), b2),
    ]);
    let sets = s.base_sets.as_ref().unwrap();
    assert_eq!(sets.len(), 2);
    assert_eq!(sets[0].created_at, "2017-01-01T00:00:00+00:00");
    assert_eq!(sets[1].book.title, "T2");
    assert!(s.lent_books.is_none());
    let s = s.with_id(43);
    assert_eq!(s.id, Some(43));
}

#[test]
fn entry_times_are_written_as_rfc3339() {
    assert_eq!(Timestamp::from_micros(0).to_rfc3339().unwrap(), "1970-01-01T00:00:00+00:00");
    assert_eq!(
        Timestamp::from_micros(1_483_228_800_500_000).to_rfc3339().unwrap(),
        "2017-01-01T00:00:00.500+00:00"
    );
    assert_eq!(Timestamp::from_micros(i64::MAX).to_rfc3339(), None);
    let b = Book::new(Some(7), "i".to_string(), "Title".to_string(), "5".to_string());
    let l = LentBook::stamped(3, Timestamp::from_micros(0), b).unwrap();
    assert_eq!((l.id, l.created_at.as_str(), l.book.title.as_str()), (3, "1970-01-01T00:00:00+00:00", "Title"));
}

#[test]
fn a_saved_student_reads_back_with_its_fields() {
    let sent = Student::from_str("{\"name\": \"PS\", \"class_letter\": \"a\", \"graduation_year\": 2011}").unwrap();
    let saved = Student::new(None, sent.name.clone(), sent.class_letter.clone(), sent.graduation_year).with_id(31);
    let read_back = Student::new(Some(31), saved.name.clone(), saved.class_letter.clone(), saved.graduation_year);
    assert_eq!(read_back.id, saved.id);
    assert_eq!((read_back.name, read_back.class_letter, read_back.graduation_year), (sent.name, sent.class_letter, sent.graduation_year));
}
