//! Save kinds: which kind a file name stands for, and whether a buffer starts
//! as a save of that kind must.

use crate::d2::parser::{magic, starts_with};
use vstd::prelude::*;
use vstd::string::*;

verus! {

/// The kinds of save.
#[derive(Clone, Copy, Debug, PartialEq, Eq, Structural)]
pub enum SaveType {
    Character,
    SharedStash,
    /// Reserved: no file name stands for it yet and no buffer passes as one.
    PlugYStash,
}

/// Why a file is not taken for a save. Each of these is a fault of format.
#[derive(Clone, Copy, Debug, PartialEq, Eq, Structural)]
pub enum SaveError {
    /// The file name has no extension.
    MissingExtension,
    /// The extension is not valid UTF-8. The paths that this library takes
    /// are texts, so none of its functions gives this error: it is for the
    /// one who turns a path of the system into a text.
    NonUtf8Extension,
    /// The extension stands for no kind of save.
    UnrecognizedExtension,
    /// The buffer is too short to hold the magic signature.
    Truncated,
    /// The buffer does not start with the magic signature of its kind.
    SignatureMismatch,
    /// Saves of this kind are not read.
    UnsupportedKind,
}

/// What is wrong with a file, as a text.
pub open spec fn save_error_text(e: SaveError) -> Seq<char> {
    match e {
        SaveError::MissingExtension => "Save file has no extension"@,
        SaveError::NonUtf8Extension => "Save file extension is not valid UTF-8"@,
        SaveError::UnrecognizedExtension => "Save file extension is not valid"@,
        SaveError::Truncated => "Save file is too short to be of the right type"@,
        SaveError::SignatureMismatch => "Save file is not the right type or is corrupted"@,
        SaveError::UnsupportedKind => "Save file type is not supported"@,
    }
}

impl SaveError {
    /// What is wrong, as a text.
    pub fn to_string(&self) -> (r: String)
        ensures
            r@ == save_error_text(*self),
    {
        match self {
            SaveError::MissingExtension => "Save file has no extension".to_owned(),
            SaveError::NonUtf8Extension => "Save file extension is not valid UTF-8".to_owned(),
            SaveError::UnrecognizedExtension => "Save file extension is not valid".to_owned(),
            SaveError::Truncated => "Save file is too short to be of the right type".to_owned(),
            SaveError::SignatureMismatch => {
                "Save file is not the right type or is corrupted".to_owned()
            },
            SaveError::UnsupportedKind => "Save file type is not supported".to_owned(),
        }
    }
}

/// A save whose buffer has passed the test of its kind.
#[derive(Debug)]
pub struct Save {
    save_type: SaveType,
    path: String,
    data: Vec<u8>,
}

/// The lower-case form of an upper-case ASCII letter; any other character
/// stays what it is.
pub open spec fn lowercase_char(c: char) -> char {
    if 'A' <= c && c <= 'Z' {
        ((c as u8) + 32) as char
    } else {
        c
    }
}

/// The text with each of its characters in lower case.
pub open spec fn lowercased(text: Seq<char>) -> Seq<char> {
    text.map_values(|c: char| lowercase_char(c))
}

/// The kind of save that an extension stands for, whatever its case.
pub open spec fn kind_of_extension(extension: Seq<char>) -> Option<SaveType> {
    if lowercased(extension) == seq!['d', '2', 's'] {
        Some(SaveType::Character)
    } else if lowercased(extension) == seq!['d', '2', 'i'] {
        Some(SaveType::SharedStash)
    } else {
        None
    }
}

/// What detection gives for an extension, or for the lack of one.
pub open spec fn detected(extension: Option<Seq<char>>) -> Result<SaveType, SaveError> {
    match extension {
        None => Err(SaveError::MissingExtension),
        Some(text) => match kind_of_extension(text) {
            Some(kind) => Ok(kind),
            None => Err(SaveError::UnrecognizedExtension),
        },
    }
}

/// Whether `extension` stands in `path` behind a `.` and holds no `.` itself.
pub open spec fn is_extension_in(path: Seq<char>, extension: Seq<char>) -> bool {
    &&& !extension.contains('.')
    &&& exists|at: int|
        0 < at && at + extension.len() <= path.len() && path[at - 1] == '.'
            && #[trigger] path.subrange(at, at + extension.len()) == extension
}

/// The extension that `std::path::Path` finds in the path that a text
/// spells, on the system that the library is built for: the part of the
/// file name behind its last `.`, where the path has a file name and the
/// file name such a part.
pub uninterp spec fn extension_text(path: Seq<char>) -> Option<Seq<char>>;

/// Whether a path is a single name: it holds none of `/`, `\` and `:`, and
/// is not `..`.
pub open spec fn is_plain_name(path: Seq<char>) -> bool {
    &&& !path.contains('/')
    &&& !path.contains('\\')
    &&& !path.contains(':')
    &&& path != seq!['.', '.']
}

/// The place of the last `.` of a text, or -1 where it holds none.
pub open spec fn last_dot(text: Seq<char>) -> int
    decreases text.len(),
{
    if text.len() == 0 {
        -1
    } else if text.last() == '.' {
        text.len() - 1
    } else {
        last_dot(text.drop_last())
    }
}

/// The extension of a single name: what stands behind its last `.`, and
/// nothing where it holds no `.` or only one at its start.
pub open spec fn plain_extension(name: Seq<char>) -> Option<Seq<char>> {
    let at = last_dot(name);
    if at <= 0 {
        None
    } else {
        Some(name.subrange(at + 1, name.len() as int))
    }
}

/// What holds of the extension of a path on every system: it stands in the
/// path behind a `.` and holds none; a path without `.` has none; and that
/// of a single name is its `plain_extension`.
pub open spec fn is_extension_of(path: Seq<char>, extension: Option<Seq<char>>) -> bool {
    &&& extension matches Some(text) ==> is_extension_in(path, text)
    &&& !path.contains('.') ==> extension is None
    &&& is_plain_name(path) ==> extension == plain_extension(path)
}

/// What loading gives for an extension, or the lack of one, and a buffer:
/// the kind that the extension stands for, where the buffer passes the
/// test of that kind; else what detection or the test refuses it with.
pub open spec fn loaded(extension: Option<Seq<char>>, data: Seq<u8>) -> Result<
    SaveType,
    SaveError,
> {
    match detected(extension) {
        Err(e) => Err(e),
        Ok(kind) => match validated(kind, data) {
            Err(e) => Err(e),
            Ok(_) => Ok(kind),
        },
    }
}

/// What the test of a buffer against a kind gives.
pub open spec fn validated(save_type: SaveType, data: Seq<u8>) -> Result<(), SaveError> {
    match save_type {
        SaveType::PlugYStash => Err(SaveError::UnsupportedKind),
        _ => if data.len() < 4 {
            Err(SaveError::Truncated)
        } else if !starts_with(data, magic()) {
            Err(SaveError::SignatureMismatch)
        } else {
            Ok(())
        },
    }
}

/// Whether `c` is `lower` in either case. `lower` is a lower-case letter or
/// a digit.
fn is_char_ignoring_case(c: char, lower: char, upper: char) -> (r: bool)
    requires
        lowercase_char(upper) == lower,
        lowercase_char(lower) == lower,
        forall|other: char| lowercase_char(other) == lower ==> other == lower || other == upper,
    ensures
        r == (lowercase_char(c) == lower),
{
    c == lower || c == upper
}

/// `std::path::Path::extension` on the path that `path` spells: the part of
/// the file name behind its last `.`, where it has one. It is the extension
/// that `extension_text` names. Of a path that is a single name it is what
/// stands behind the last `.`, and nothing where there is no `.` or only one
/// at the start; a path without any `.` has none.
#[verifier::external_body]
fn path_extension<'a>(path: &'a str) -> (r: Option<&'a str>)
    ensures
        r is None <==> extension_text(path@) is None,
        r matches Some(extension) ==> extension_text(path@) == Some(extension@),
        r matches Some(extension) ==> is_extension_in(path@, extension@),
        !path@.contains('.') ==> r is None,
        is_plain_name(path@) ==> (r is None <==> plain_extension(path@) is None),
        r matches Some(extension) ==> (is_plain_name(path@) ==> plain_extension(path@) == Some(
            extension@,
        )),
{
    match std::path::Path::new(path).extension() {
        Some(extension) => extension.to_str(),
        None => None,
    }
}

/// The kind of save that an extension stands for: `d2s` for a character and
/// `d2i` for a shared stash, in any case. Anything else, and the lack of an
/// extension, is refused.
pub fn save_type_of_extension(extension: Option<&str>) -> (r: Result<SaveType, SaveError>)
    ensures
        r == detected(
            match extension {
                Some(text) => Some(text@),
                None => None,
            },
        ),
{
    match extension {
        None => Err(SaveError::MissingExtension),
        Some(text) => {
            if text.unicode_len() != 3 {
                assert(lowercased(text@).len() != 3);
                return Err(SaveError::UnrecognizedExtension);
            }
            let c0: char = text.get_char(0);
            let c1: char = text.get_char(1);
            let c2: char = text.get_char(2);
            assert(lowercased(text@)[0] == lowercase_char(c0));
            assert(lowercased(text@)[1] == lowercase_char(c1));
            assert(lowercased(text@)[2] == lowercase_char(c2));
            if is_char_ignoring_case(c0, 'd', 'D') && c1 == '2' {
                if is_char_ignoring_case(c2, 's', 'S') {
                    assert(lowercased(text@) =~= seq!['d', '2', 's']);
                    return Ok(SaveType::Character);
                }
                if is_char_ignoring_case(c2, 'i', 'I') {
                    assert(lowercased(text@) =~= seq!['d', '2', 'i']);
                    return Ok(SaveType::SharedStash);
                }
            }
            Err(SaveError::UnrecognizedExtension)
        },
    }
}

/// The kind of save that a path names, by its extension: what
/// `save_type_of_extension` gives for the extension of the path.
pub fn detect_save_type(path: &str) -> (r: Result<SaveType, SaveError>)
    ensures
        r == detected(extension_text(path@)),
        is_extension_of(path@, extension_text(path@)),
{
    let extension: Option<&str> = path_extension(path);
    save_type_of_extension(extension)
}

/// Tests a buffer against a kind: a character save and a shared stash start
/// with the magic signature; no buffer passes as any other kind.
pub fn validate_save_type(save_type: SaveType, data: &[u8]) -> (r: Result<(), SaveError>)
    ensures
        r == validated(save_type, data@),
{
    match save_type {
        SaveType::Character => {
            if data.len() < 4 {
                return Err(SaveError::Truncated);
            }
            if !(data[0] == 0x55 && data[1] == 0xAA && data[2] == 0x55 && data[3] == 0xAA) {
                return Err(SaveError::SignatureMismatch);
            }
            assert(data@.subrange(0, 4) =~= magic());
        },
        SaveType::SharedStash => {
            if data.len() < 4 {
                return Err(SaveError::Truncated);
            }
            if !(data[0] == 0x55 && data[1] == 0xAA && data[2] == 0x55 && data[3] == 0xAA) {
                return Err(SaveError::SignatureMismatch);
            }
            assert(data@.subrange(0, 4) =~= magic());
        },
        _ => return Err(SaveError::UnsupportedKind),
    }
    Ok(())
}

impl Save {
    /// What holds of every save: its buffer passes the test of its kind.
    #[verifier::type_invariant]
    pub closed spec fn well_formed(&self) -> bool {
        validated(self.save_type, self.data@) is Ok
    }

    /// The kind of the save.
    pub closed spec fn spec_save_type(&self) -> SaveType {
        self.save_type
    }

    /// The path that the save was read from.
    pub closed spec fn spec_path(&self) -> Seq<char> {
        self.path@
    }

    /// The bytes of the save.
    pub closed spec fn spec_data(&self) -> Seq<u8> {
        self.data@
    }

    /// A well-formed save starts with the magic signature and is of a kind
    /// that is read.
    pub proof fn well_formed_starts_with_magic(&self)
        requires
            self.well_formed(),
        ensures
            validated(self.spec_save_type(), self.spec_data()) is Ok,
            starts_with(self.spec_data(), magic()),
            self.spec_save_type() != SaveType::PlugYStash,
    {
    }

    /// The kind of the save, which is one that is read.
    #[verifier::when_used_as_spec(spec_save_type)]
    pub fn save_type(&self) -> (r: SaveType)
        ensures
            r == self.spec_save_type(),
            r != SaveType::PlugYStash,
    {
        proof {
            use_type_invariant(self);
        }
        self.save_type
    }

    /// The path that the save was read from.
    pub fn path(&self) -> (r: &str)
        ensures
            r@ == self.spec_path(),
    {
        self.path.as_str()
    }

    /// The bytes of the save, which start with the magic signature.
    pub fn data(&self) -> (r: &[u8])
        ensures
            r@ == self.spec_data(),
            starts_with(r@, magic()),
    {
        proof {
            use_type_invariant(self);
        }
        self.data.as_slice()
    }
}

/// Makes a save of the bytes read from `path`: the kind is that of the
/// path's extension, and the bytes must pass its test. A save is made
/// exactly where the kind is detected and the bytes pass; it holds the path
/// and the bytes as they came.
pub fn load_save_from_bytes(path: &str, data: Vec<u8>) -> (r: Result<Save, SaveError>)
    ensures
        match loaded(extension_text(path@), data@) {
            Err(e) => r matches Err(refused) && refused == e,
            Ok(kind) => r matches Ok(save) && save.well_formed() && save.spec_save_type() == kind
                && save.spec_path() == path@ && save.spec_data() == data@,
        },
        is_extension_of(path@, extension_text(path@)),
{
    let save_type = match detect_save_type(path) {
        Err(err) => return Err(err),
        Ok(save_type) => save_type,
    };
    match validate_save_type(save_type, data.as_slice()) {
        Err(err) => return Err(err),
        Ok(_) => (),
    }
    Ok(Save { save_type, path: path.to_owned(), data })
}

} // verus!
