//! Decoding of Diablo II character saves and reconciliation of the decoded
//! characters with the records that storage already holds.
//!
//! Storage itself is not here. An import is three steps around two calls of
//! storage: the record is made of the document, storage is asked for a
//! character of that name, `reconcile` says whether to insert, and
//! `created` closes an insert. Between the question and the insert nothing
//! holds storage still: where two imports of one new name run at once, both
//! may insert, unless storage itself refuses a second row of that name.

use vstd::prelude::*;
use vstd::string::*;

pub mod d2;
pub mod models;

use crate::d2::decode::character_document;
use crate::d2::json::DecodeError;
use crate::d2::models::CharacterData;
use crate::models::{is_record_of, Character, NewCharacter};

verus! {

/// How an import ended. `Updated` says that storage already held a character
/// of that name, which was handed back as it was: no field of it is changed.
#[derive(Clone, Copy, Debug, PartialEq, Eq, Structural)]
pub enum ImportStatus {
    Created,
    Updated,
}

/// The character that an import ended with, and how it ended.
#[derive(Debug, PartialEq, Eq)]
pub struct ImportResult {
    pub character: Character,
    pub status: ImportStatus,
}

/// What an import does once storage has answered.
#[derive(Debug, PartialEq, Eq)]
pub enum ImportStep {
    /// Storage holds no character of that name: this record is to be inserted.
    Insert(NewCharacter),
    /// Storage holds one: the import ends with it.
    Done(ImportResult),
}

/// The first character of `stored` with the given name.
pub open spec fn lookup(stored: Seq<Character>, name: Seq<char>) -> Option<Character>
    decreases stored.len(),
{
    if stored.len() == 0 {
        None
    } else if stored[0].name@ == name {
        Some(stored[0])
    } else {
        lookup(stored.drop_first(), name)
    }
}

/// The number of characters of `stored` with the given name.
pub open spec fn count_named(stored: Seq<Character>, name: Seq<char>) -> nat
    decreases stored.len(),
{
    if stored.len() == 0 {
        0
    } else {
        count_named(stored.drop_last(), name) + if stored.last().name@ == name {
            1nat
        } else {
            0nat
        }
    }
}

/// What an import does with the answer of storage to the question for a
/// character of the record's name: a character that was found ends the
/// import as `Updated`, unchanged; where none was found the record is to be
/// inserted.
pub open spec fn reconciled(
    new_character: NewCharacter,
    existing: Option<Character>,
) -> ImportStep {
    match existing {
        Some(character) => ImportStep::Done(
            ImportResult { character, status: ImportStatus::Updated },
        ),
        None => ImportStep::Insert(new_character),
    }
}

/// How an import ends that has inserted: as `Created`, with the character
/// that storage made of the record.
pub open spec fn created_of(inserted: Character) -> ImportResult {
    ImportResult { character: inserted, status: ImportStatus::Created }
}

/// What an import of `record` leaves in storage and how it ends, where
/// storage holds `stored` before it, answers with the first character of the
/// name, and would store `inserted` for the record.
pub open spec fn imported(stored: Seq<Character>, record: NewCharacter, inserted: Character) -> (
    Seq<Character>,
    ImportResult,
) {
    match reconciled(record, lookup(stored, record.name@)) {
        ImportStep::Done(result) => (stored, result),
        ImportStep::Insert(_) => (stored.push(inserted), created_of(inserted)),
    }
}

/// The text of a status.
pub open spec fn status_text(status: ImportStatus) -> Seq<char> {
    match status {
        ImportStatus::Created => "Created"@,
        ImportStatus::Updated => "Updated"@,
    }
}

/// The message that reports an import.
pub open spec fn message_text(status: ImportStatus, name: Seq<char>) -> Seq<char> {
    status_text(status) + " character "@ + name + " successfully."@
}

impl ImportStatus {
    /// The name of the status.
    pub fn to_string(&self) -> (r: String)
        ensures
            r@ == status_text(*self),
    {
        match self {
            ImportStatus::Created => "Created".to_owned(),
            ImportStatus::Updated => "Updated".to_owned(),
        }
    }
}

/// The first step of an import: decodes the document and makes the record
/// to store of its header. The name of the record is the name to ask
/// storage for.
pub fn prepare_import(character_json: &str) -> (r: Result<NewCharacter, DecodeError>)
    ensures
        match r {
            Ok(record) => character_document(character_json@) is Ok && is_record_of(
                record,
                character_document(character_json@)->Ok_0.header,
            ),
            Err(e) => character_document(character_json@) == Err::<
                crate::d2::models::CharacterDataView,
                crate::d2::json::DecodeErrorView,
            >(e.deep_view()),
        },
{
    match CharacterData::from_json_str(character_json) {
        Ok(character_data) => Ok(NewCharacter::from_character_data(character_data)),
        Err(e) => Err(e),
    }
}

/// Decides what an import does with the answer of storage to the question
/// for a character of the record's name.
pub fn reconcile(new_character: NewCharacter, existing: Option<Character>) -> (r: ImportStep)
    ensures
        r == reconciled(new_character, existing),
{
    match existing {
        Some(character) => ImportStep::Done(
            ImportResult { character, status: ImportStatus::Updated },
        ),
        None => ImportStep::Insert(new_character),
    }
}

/// Ends an import with the character that storage made of the record.
pub fn created(inserted: Character) -> (r: ImportResult)
    ensures
        r == created_of(inserted),
{
    ImportResult { character: inserted, status: ImportStatus::Created }
}

/// The message that reports an import: the status, then the name of the
/// character.
pub fn import_message(result: &ImportResult) -> (r: String)
    ensures
        r@ == message_text(result.status, result.character.name@),
{
    let mut message: String = result.status.to_string();
    message.append(" character ");
    message.append(result.character.name.as_str());
    message.append(" successfully.");
    message
}

/// Looking a name up finds a character of that name that is stored, and
/// finds none only where none is stored.
pub proof fn lookup_finds_named(stored: Seq<Character>, name: Seq<char>)
    ensures
        lookup(stored, name) matches Some(found) ==> found.name@ == name && stored.contains(found),
        lookup(stored, name) is None <==> count_named(stored, name) == 0,
    decreases stored.len(),
{
    if stored.len() != 0 {
        let rest = stored.drop_first();
        lookup_finds_named(rest, name);
        count_named_split_first(stored, name);
        if stored[0].name@ != name {
            if lookup(rest, name) is Some {
                let found = lookup(rest, name)->Some_0;
                let at = choose|i: int| 0 <= i < rest.len() && rest[i] == found;
                assert(stored[at + 1] == found);
            }
        } else {
            assert(stored[0] == stored[0]);
        }
    }
}

/// Counting from the front gives what counting from the back gives.
proof fn count_named_split_first(stored: Seq<Character>, name: Seq<char>)
    requires
        stored.len() > 0,
    ensures
        count_named(stored, name) == count_named(stored.drop_first(), name) + if stored[0].name@
            == name {
            1nat
        } else {
            0nat
        },
    decreases stored.len(),
{
    if stored.len() == 1 {
        assert(stored.drop_last() =~= Seq::<Character>::empty());
        assert(stored.drop_first() =~= Seq::<Character>::empty());
    } else {
        count_named_split_first(stored.drop_last(), name);
        assert(stored.drop_last().drop_first() =~= stored.drop_first().drop_last());
        assert(stored.drop_first().last() == stored.last());
        assert(stored.drop_last()[0] == stored[0]);
    }
}

/// Importing a character twice, into storage that held no character of its
/// name, creates the character the first time and matches it the second
/// time: the second import ends as `Updated` with the character that the
/// first one stored, leaves storage as it was, and storage then holds
/// exactly one character of that name. The two records are those of the two
/// imports; they have the same name, as the records of one document have.
pub proof fn import_twice_stores_once(
    stored: Seq<Character>,
    first_record: NewCharacter,
    second_record: NewCharacter,
    first_inserted: Character,
    second_inserted: Character,
)
    requires
        count_named(stored, first_record.name@) == 0,
        second_record.name@ == first_record.name@,
        first_inserted.name@ == first_record.name@,
    ensures
        ({
            let (after_first, first) = imported(stored, first_record, first_inserted);
            let (after_second, second) = imported(after_first, second_record, second_inserted);
            &&& first.status == ImportStatus::Created
            &&& first.character == first_inserted
            &&& second.status == ImportStatus::Updated
            &&& second.character == first_inserted
            &&& after_second == after_first
            &&& count_named(after_second, first_record.name@) == 1
        }),
{
    let name = first_record.name@;
    lookup_finds_named(stored, name);
    let after_first = stored.push(first_inserted);
    assert(after_first.drop_last() =~= stored);
    assert(count_named(after_first, name) == 1);
    lookup_finds_named(after_first, name);
    lookup_of_unique(after_first, name, first_inserted);
}

/// What an import does to the number of stored characters of any one name:
/// it adds one where the name is the record's and storage held none of it,
/// and leaves the number as it was otherwise.
pub proof fn import_adds_one_of_a_new_name(
    stored: Seq<Character>,
    record: NewCharacter,
    inserted: Character,
    name: Seq<char>,
)
    requires
        inserted.name@ == record.name@,
    ensures
        count_named(imported(stored, record, inserted).0, name) == if name == record.name@
            && count_named(stored, name) == 0 {
            1nat
        } else {
            count_named(stored, name)
        },
{
    lookup_finds_named(stored, record.name@);
    if lookup(stored, record.name@) is None {
        assert(stored.push(inserted).drop_last() =~= stored);
    }
}

/// Storage that holds each name once at most still does so after an import,
/// whatever was imported before: no chain of imports stores a name twice.
pub proof fn import_keeps_each_name_once(
    stored: Seq<Character>,
    record: NewCharacter,
    inserted: Character,
)
    requires
        inserted.name@ == record.name@,
        forall|name: Seq<char>| count_named(stored, name) <= 1,
    ensures
        forall|name: Seq<char>|
            #[trigger] count_named(imported(stored, record, inserted).0, name) <= 1,
        count_named(imported(stored, record, inserted).0, record.name@) == 1,
{
    assert forall|name: Seq<char>|
        #[trigger] count_named(imported(stored, record, inserted).0, name) <= 1 by {
        import_adds_one_of_a_new_name(stored, record, inserted, name);
    }
    import_adds_one_of_a_new_name(stored, record, inserted, record.name@);
}

/// An import into storage that holds a character of the record's name
/// changes nothing in storage and ends with that character as it is stored.
pub proof fn import_of_known_name_changes_nothing(
    stored: Seq<Character>,
    record: NewCharacter,
    inserted: Character,
)
    requires
        count_named(stored, record.name@) > 0,
    ensures
        imported(stored, record, inserted).0 == stored,
        imported(stored, record, inserted).1.status == ImportStatus::Updated,
        stored.contains(imported(stored, record, inserted).1.character),
        imported(stored, record, inserted).1.character.name@ == record.name@,
{
    lookup_finds_named(stored, record.name@);
}

/// Where exactly one stored character has the name, looking the name up
/// finds that one.
proof fn lookup_of_unique(stored: Seq<Character>, name: Seq<char>, only: Character)
    requires
        count_named(stored, name) == 1,
        stored.len() > 0,
        stored.last() == only,
        only.name@ == name,
    ensures
        lookup(stored, name) == Some(only),
    decreases stored.len(),
{
    count_named_split_first(stored, name);
    if stored.len() == 1 {
    } else if stored[0].name@ == name {
        // the last one has the name too: that would be two
        count_named_positive(stored.drop_first(), name);
        assert(false);
    } else {
        lookup_of_unique(stored.drop_first(), name, only);
    }
}

/// A list whose last character has the name holds at least one of that name.
proof fn count_named_positive(stored: Seq<Character>, name: Seq<char>)
    requires
        stored.len() > 0,
        stored.last().name@ == name,
    ensures
        count_named(stored, name) >= 1,
{
}

} // verus!
