use d2_stash_tracker::models::{saved_at_or_epoch, Character, NewCharacter, Timestamp};
use d2_stash_tracker::d2::json::{DecodeError, DecodeErrorKind, PathSegment};
use d2_stash_tracker::d2::models::CharacterData;
use d2_stash_tracker::{
    created, import_message, prepare_import, reconcile, ImportResult, ImportStatus, ImportStep,
};

fn document(name: &str, last_played: u32) -> String {
    format!(
        "{{\"header\":{{\"identifier\":\"x\",\"name\":\"{}\",\"level\":81,\"class\":\"Sorceress\",\
         \"status\":{{\"expansion\":true,\"died\":false,\"hardcore\":true,\"ladder\":false}},\
         \"created\":0,\"last_played\":{}}},\"attributes\":{{}},\"items\":[],\
         \"corpse_items\":[],\"merc_items\":[]}}",
        name, last_played
    )
}

/// Storage as a list: what a store does with the two questions of an import.
struct Stored {
    rows: Vec<Character>,
}

impl Stored {
    fn get_character(&self, name: &str) -> Option<Character> {
        self.rows.iter().find(|row| row.name == name).map(copy_of)
    }

    fn insert_character(&mut self, record: &NewCharacter) -> Character {
        let stamp = Timestamp { secs: 1_800_000_000 + self.rows.len() as i64, nanos: 0 };
        let row = Character {
            id: self.rows.len() as i32 + 1,
            name: record.name.clone(),
            level: record.level,
            class: record.class.clone(),
            is_expansion: record.is_expansion,
            has_died: record.has_died,
            is_hardcore: record.is_hardcore,
            is_ladder: record.is_ladder,
            saved_at: record.saved_at,
            created_at: stamp,
            updated_at: stamp,
        };
        self.rows.push(copy_of(&row));
        row
    }

    fn named(&self, name: &str) -> usize {
        self.rows.iter().filter(|row| row.name == name).count()
    }
}

fn copy_of(row: &Character) -> Character {
    Character {
        id: row.id,
        name: row.name.clone(),
        level: row.level,
        class: row.class.clone(),
        is_expansion: row.is_expansion,
        has_died: row.has_died,
        is_hardcore: row.is_hardcore,
        is_ladder: row.is_ladder,
        saved_at: row.saved_at,
        created_at: row.created_at,
        updated_at: row.updated_at,
    }
}

fn import_character(stored: &mut Stored, character_json: &str) -> Result<ImportResult, DecodeError> {
    let new_character = prepare_import(character_json)?;
    let existing_character = stored.get_character(&new_character.name);
    Ok(match reconcile(new_character, existing_character) {
        ImportStep::Done(result) => result,
        ImportStep::Insert(record) => created(stored.insert_character(&record)),
    })
}

#[test]
fn test_import_character() {
    let mut stored = Stored { rows: vec![] };
    let result = import_character(&mut stored, &document("Alina", 1_700_000_000));
    println!("result: {:?}", result);
    assert!(result.is_ok());
}

#[test]
fn importing_twice_creates_then_matches() {
    let mut stored = Stored { rows: vec![] };
    stored.insert_character(&prepare_import(&document("Bran", 5)).unwrap());
    let text = document("Alina", 1_700_000_000);
    let first = import_character(&mut stored, &text).unwrap();
    assert_eq!(first.status, ImportStatus::Created);
    assert_eq!(first.character.name, "Alina");
    assert_eq!(first.character.id, 2);
    assert_eq!(stored.named("Alina"), 1);
    let second = import_character(&mut stored, &text).unwrap();
    // "Updated" says that the character was there already: nothing of it is changed.
    assert_eq!(second.status, ImportStatus::Updated);
    assert_eq!(second.character.id, first.character.id);
    assert_eq!(second.character.created_at, first.character.created_at);
    assert_eq!(second.character.updated_at, first.character.updated_at);
    assert_eq!(stored.named("Alina"), 1);
    assert_eq!(stored.rows.len(), 2);
}

#[test]
fn a_matched_character_is_handed_back_unchanged() {
    let mut stored = Stored { rows: vec![] };
    let old = import_character(&mut stored, &document("Alina", 1000)).unwrap();
    let newer = document("Alina", 999_000).replace("\"level\":81", "\"level\":99");
    let again = import_character(&mut stored, &newer).unwrap();
    assert_eq!(again.status, ImportStatus::Updated);
    assert_eq!(again.character.level, 81);
    assert_eq!(again.character.saved_at, old.character.saved_at);
    assert_eq!(again.character.saved_at, Timestamp { secs: 1000, nanos: 0 });
    assert_eq!(stored.rows[0].level, 81);
    assert_eq!(stored.rows.len(), 1);
}

#[test]
fn reconcile_inserts_only_where_nothing_was_found() {
    let record = prepare_import(&document("Alina", 0)).unwrap();
    match reconcile(record, None) {
        ImportStep::Insert(record) => assert_eq!(record.name, "Alina"),
        ImportStep::Done(_) => panic!("nothing was found"),
    }
    let mut stored = Stored { rows: vec![] };
    let row = stored.insert_character(&prepare_import(&document("Alina", 0)).unwrap());
    let record = prepare_import(&document("Alina", 77)).unwrap();
    match reconcile(record, Some(row)) {
        ImportStep::Insert(_) => panic!("one was found"),
        ImportStep::Done(result) => {
            assert_eq!(result.status, ImportStatus::Updated);
            assert_eq!(result.character.id, 1);
        }
    }
}

#[test]
fn record_mirrors_the_header() {
    let data = CharacterData::from_json_str(&document("Alina", 1_700_000_123)).unwrap();
    let record = NewCharacter::from_character_data(data);
    assert_eq!(record.name, "Alina");
    assert_eq!(record.level, 81);
    assert_eq!(record.class, "Sorceress");
    assert!(record.is_expansion);
    assert!(!record.has_died);
    assert!(record.is_hardcore);
    assert!(!record.is_ladder);
    assert_eq!(record.saved_at, Timestamp { secs: 1_700_000_123, nanos: 0 });
}

#[test]
fn saved_at_is_the_time_last_played_in_seconds() {
    for last_played in [0u32, 1, 999, 1000, 1_000_000_000, 1_700_000_000, u32::MAX] {
        let record = prepare_import(&document("Alina", last_played)).unwrap();
        assert_eq!(record.saved_at, Timestamp { secs: last_played as i64, nanos: 0 });
        let time = chrono::DateTime::from_timestamp(last_played as i64, 0).unwrap();
        assert_eq!(record.saved_at.secs, time.timestamp());
        assert_eq!(record.saved_at.nanos, time.timestamp_subsec_nanos());
    }
    let record = prepare_import(&document("Alina", 1_000_000_000)).unwrap();
    let time = chrono::DateTime::from_timestamp(record.saved_at.secs, record.saved_at.nanos)
        .unwrap()
        .naive_utc();
    let expected = chrono::NaiveDate::from_ymd_opt(2001, 9, 9)
        .unwrap()
        .and_hms_opt(1, 46, 40)
        .unwrap();
    assert_eq!(time, expected);
}

#[test]
fn a_time_that_cannot_be_made_is_the_epoch() {
    assert_eq!(saved_at_or_epoch(None), Timestamp { secs: 0, nanos: 0 });
    let time = Timestamp { secs: 12, nanos: 34 };
    assert_eq!(saved_at_or_epoch(Some(time)), time);
}

#[test]
fn a_document_that_does_not_decode_is_not_imported() {
    let mut stored = Stored { rows: vec![] };
    let err = import_character(&mut stored, "{\"items\":[]}").unwrap_err();
    assert_eq!(
        err,
        DecodeError {
            kind: DecodeErrorKind::MissingField,
            path: vec![PathSegment::Field("header".to_string())]
        }
    );
    let err = import_character(&mut stored, "not json").unwrap_err();
    assert_eq!(err, DecodeError { kind: DecodeErrorKind::Syntax, path: vec![] });
    assert!(stored.rows.is_empty());
}

#[test]
fn message_names_status_and_character() {
    let mut stored = Stored { rows: vec![] };
    let text = document("Alina", 1);
    let first = import_character(&mut stored, &text).unwrap();
    assert_eq!(import_message(&first), "Created character Alina successfully.");
    let second = import_character(&mut stored, &text).unwrap();
    assert_eq!(import_message(&second), "Updated character Alina successfully.");
    assert_eq!(ImportStatus::Created.to_string(), "Created");
    assert_eq!(ImportStatus::Updated.to_string(), "Updated");
}
