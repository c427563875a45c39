//! Decoder of the fixed-offset header at the front of a character save.
//!
//! All offsets are absolute from the start of the buffer and all integers are
//! little-endian. The contracts speak of the buffer as a `Seq<u8>`.

use vstd::prelude::*;
use vstd::slice::slice_subrange;
use vstd::utf8::*;

verus! {

/// The status bitfield of a character, as stored in the save.
pub type CharacterStatus = u8;

pub const CHARACTER_STATUS_HARDCORE: u8 = 0x04;

pub const CHARACTER_STATUS_DEAD: u8 = 0x08;

pub const CHARACTER_STATUS_EXPANSION: u8 = 0x20;

pub const CHARACTER_STATUS_LADDER: u8 = 0x40;

/// Versions at or below this one have the legacy layout, which is not decoded.
pub const LEGACY_VERSION: u32 = 0x61;

/// Offset of the status byte, where the summary block starts.
pub const STATUS_OFFSET: usize = 0x24;

/// Offset of the class code.
pub const CLASS_OFFSET: usize = 0x28;

/// Offset of the level byte.
pub const LEVEL_OFFSET: usize = 0x2B;

/// Offset of the creation time.
pub const CREATED_OFFSET: usize = 0x2C;

/// Offset of the time the character was last played.
pub const LAST_PLAYED_OFFSET: usize = 0x30;

/// Offset of the first byte after the assigned-skill block.
pub const SKILLS_END: usize = 0x60;

/// Offset of the name field.
pub const NAME_OFFSET: usize = 0x10B;

/// Width of the name field.
pub const NAME_FIELD_LEN: usize = 16;

/// Offset of the first byte after the name field: a buffer shorter than this
/// cannot hold a header.
pub const HEADER_END: usize = 0x11B;

/// The shortest name, in bytes.
pub const NAME_MIN: usize = 2;

/// The longest name, in bytes.
pub const NAME_MAX: usize = 15;

/// The seven classes, in the order of their codes.
#[derive(Clone, Copy, Debug, PartialEq, Eq, Structural)]
pub enum CharacterClass {
    Amazon,
    Sorceress,
    Necromancer,
    Paladin,
    Barbarian,
    Druid,
    Assassin,
}

/// The field that failed to decode although its bytes were there.
#[derive(Clone, Copy, Debug, PartialEq, Eq, Structural)]
pub enum MalformedField {
    /// The class code is not one of the seven.
    Class,
    /// The name field holds no run of 2 to 15 bytes that is valid UTF-8.
    Name,
}

/// Why a buffer is not a character header.
#[derive(Clone, Copy, Debug, PartialEq, Eq, Structural)]
pub enum ParseError {
    /// The buffer ends before a fixed-offset read does.
    Incomplete,
    /// The first four bytes are not the magic signature.
    InvalidFormat,
    /// The version is at or below `LEGACY_VERSION`.
    UnsupportedVersion,
    /// A field is there and does not decode.
    Malformed(MalformedField),
}

/// The summary of a character, as its save header gives it.
#[derive(Debug, PartialEq, Eq)]
pub struct Character {
    pub name: String,
    pub version: u32,
    pub status: CharacterStatus,
    pub class: CharacterClass,
    pub level: u8,
    pub created_at: u32,
    pub last_played_at: u32,
}

/// The magic signature of a character save.
pub open spec fn magic() -> Seq<u8> {
    seq![0x55u8, 0xAAu8, 0x55u8, 0xAAu8]
}

/// Whether `input` begins with the bytes of `pattern`.
pub open spec fn starts_with(input: Seq<u8>, pattern: Seq<u8>) -> bool {
    pattern.len() <= input.len() && input.subrange(0, pattern.len() as int) == pattern
}

/// The two bytes at `at`, least significant first.
pub open spec fn le_u16_at(data: Seq<u8>, at: int) -> int {
    data[at] + 0x100 * data[at + 1]
}

/// The four bytes at `at`, least significant first.
pub open spec fn le_u32_at(data: Seq<u8>, at: int) -> int {
    data[at] + 0x100 * data[at + 1] + 0x1_0000 * data[at + 2] + 0x100_0000 * data[at + 3]
}

/// The class that a code stands for, if it stands for one.
pub open spec fn class_of_code(code: u8) -> Option<CharacterClass> {
    if code == 0 {
        Some(CharacterClass::Amazon)
    } else if code == 1 {
        Some(CharacterClass::Sorceress)
    } else if code == 2 {
        Some(CharacterClass::Necromancer)
    } else if code == 3 {
        Some(CharacterClass::Paladin)
    } else if code == 4 {
        Some(CharacterClass::Barbarian)
    } else if code == 5 {
        Some(CharacterClass::Druid)
    } else if code == 6 {
        Some(CharacterClass::Assassin)
    } else {
        None
    }
}

/// The number of bytes before the first null byte of `bytes`, or its length
/// where it holds none.
pub open spec fn name_run(bytes: Seq<u8>) -> nat
    decreases bytes.len(),
{
    if bytes.len() == 0 || bytes[0] == 0 {
        0
    } else {
        1 + name_run(bytes.drop_first())
    }
}

/// The bytes of the name in a buffer that starts with the name field: the run
/// of non-null bytes at its start, cut at `NAME_MAX`.
pub open spec fn name_bytes(input: Seq<u8>) -> Seq<u8> {
    let field = input.subrange(0, NAME_FIELD_LEN as int);
    let run = name_run(field);
    field.subrange(0, if run <= NAME_MAX { run as int } else { NAME_MAX as int })
}

/// What decoding the name gives for a buffer that starts with the name field.
pub open spec fn name_outcome(input: Seq<u8>) -> Result<Seq<char>, ParseError> {
    if input.len() < NAME_FIELD_LEN {
        Err(ParseError::Incomplete)
    } else if name_run(input.subrange(0, NAME_FIELD_LEN as int)) < NAME_MIN {
        Err(ParseError::Malformed(MalformedField::Name))
    } else if !valid_utf8(name_bytes(input)) {
        Err(ParseError::Malformed(MalformedField::Name))
    } else {
        Ok(decode_utf8(name_bytes(input)))
    }
}

/// Why the summary block and the name of `data` do not decode, if they do not.
/// The length is tested before any field is.
pub open spec fn current_error(data: Seq<u8>) -> Option<ParseError> {
    if data.len() < HEADER_END {
        Some(ParseError::Incomplete)
    } else if class_of_code(data[CLASS_OFFSET as int]) is None {
        Some(ParseError::Malformed(MalformedField::Class))
    } else {
        match name_outcome(data.subrange(NAME_OFFSET as int, data.len() as int)) {
            Ok(_) => None,
            Err(e) => Some(e),
        }
    }
}

/// Why `data` is not a character header, if it is none. A buffer that is too
/// short is incomplete whatever it holds; then come the magic signature, the
/// version, the class and the name, in this order.
pub open spec fn parse_error(data: Seq<u8>) -> Option<ParseError> {
    if data.len() < HEADER_END {
        Some(ParseError::Incomplete)
    } else if !starts_with(data, magic()) {
        Some(ParseError::InvalidFormat)
    } else if le_u32_at(data, 4) <= LEGACY_VERSION {
        Some(ParseError::UnsupportedVersion)
    } else {
        current_error(data)
    }
}

/// Every field of `character` but the version is what `data` holds at the
/// field's offset.
pub open spec fn describes(data: Seq<u8>, character: Character) -> bool {
    &&& character.status == data[STATUS_OFFSET as int]
    &&& class_of_code(data[CLASS_OFFSET as int]) == Some(character.class)
    &&& character.level == data[LEVEL_OFFSET as int]
    &&& character.created_at == le_u32_at(data, CREATED_OFFSET as int)
    &&& character.last_played_at == le_u32_at(data, LAST_PLAYED_OFFSET as int)
    &&& name_outcome(data.subrange(NAME_OFFSET as int, data.len() as int)) == Ok::<
        Seq<char>,
        ParseError,
    >(character.name@)
}

impl CharacterClass {
    /// The class with the given code; a code above 6 stands for none.
    pub fn try_from(value: u8) -> (r: Result<CharacterClass, ParseError>)
        ensures
            match r {
                Ok(class) => class_of_code(value) == Some(class),
                Err(e) => class_of_code(value) is None && e == ParseError::Malformed(
                    MalformedField::Class,
                ),
            },
    {
        match value {
            0x00 => Ok(CharacterClass::Amazon),
            0x01 => Ok(CharacterClass::Sorceress),
            0x02 => Ok(CharacterClass::Necromancer),
            0x03 => Ok(CharacterClass::Paladin),
            0x04 => Ok(CharacterClass::Barbarian),
            0x05 => Ok(CharacterClass::Druid),
            0x06 => Ok(CharacterClass::Assassin),
            _ => Err(ParseError::Malformed(MalformedField::Class)),
        }
    }
}

/// Whether a byte can stand in a name: any byte but the terminator.
pub fn is_name_byte(c: u8) -> (r: bool)
    ensures
        r == (c != 0),
{
    c != 0x00
}

/// `nom::number::complete::le_u8` on a byte slice: the first byte and the
/// slice behind it, or nothing where the slice is empty.
#[verifier::external_body]
fn le_u8<'a>(input: &'a [u8]) -> (r: Option<(&'a [u8], u8)>)
    ensures
        r is None <==> input@.len() < 1,
        r matches Some((rest, value)) ==> value == input@[0] && rest@ == input@.subrange(
            1,
            input@.len() as int,
        ),
{
    nom::number::complete::le_u8::<&[u8], nom::error::Error<&[u8]>>(input).ok()
}

/// `nom::number::complete::le_u16` on a byte slice: the first two bytes as a
/// number, least significant first, and the slice behind them, or nothing
/// where the slice holds fewer than two bytes.
#[verifier::external_body]
fn le_u16<'a>(input: &'a [u8]) -> (r: Option<(&'a [u8], u16)>)
    ensures
        r is None <==> input@.len() < 2,
        r matches Some((rest, value)) ==> value == le_u16_at(input@, 0) && rest@
            == input@.subrange(2, input@.len() as int),
{
    nom::number::complete::le_u16::<&[u8], nom::error::Error<&[u8]>>(input).ok()
}

/// `nom::number::complete::le_u32` on a byte slice: the first four bytes as a
/// number, least significant first, and the slice behind them, or nothing
/// where the slice holds fewer than four bytes.
#[verifier::external_body]
fn le_u32<'a>(input: &'a [u8]) -> (r: Option<(&'a [u8], u32)>)
    ensures
        r is None <==> input@.len() < 4,
        r matches Some((rest, value)) ==> value == le_u32_at(input@, 0) && rest@
            == input@.subrange(4, input@.len() as int),
{
    nom::number::complete::le_u32::<&[u8], nom::error::Error<&[u8]>>(input).ok()
}

/// `nom::bytes::complete::take` on a byte slice: the slice behind the first
/// `count` bytes and those bytes, or nothing where the slice holds fewer.
#[verifier::external_body]
fn take<'a>(count: usize, input: &'a [u8]) -> (r: Option<(&'a [u8], &'a [u8])>)
    ensures
        r is None <==> input@.len() < count,
        r matches Some((rest, taken)) ==> taken@ == input@.subrange(0, count as int) && rest@
            == input@.subrange(count as int, input@.len() as int),
{
    nom::bytes::complete::take::<usize, &[u8], nom::error::Error<&[u8]>>(count)(input).ok()
}

/// `nom::bytes::complete::tag` on byte slices: where `input` starts with
/// `pattern`, the slice behind it and the part that matched; else nothing.
#[verifier::external_body]
fn tag<'a>(pattern: &[u8], input: &'a [u8]) -> (r: Option<(&'a [u8], &'a [u8])>)
    ensures
        r is Some <==> starts_with(input@, pattern@),
        r matches Some((rest, matched)) ==> matched@ == pattern@ && rest@ == input@.subrange(
            pattern@.len() as int,
            input@.len() as int,
        ),
{
    nom::bytes::complete::tag::<&[u8], &[u8], nom::error::Error<&[u8]>>(pattern)(input).ok()
}

/// `nom::bytes::complete::take_while_m_n` with `is_name_byte` as its test, on
/// a byte slice: the run of non-null bytes at the start of `input`, cut at `n`
/// bytes, and the slice behind it; nothing where the run is shorter than `m`.
#[verifier::external_body]
fn take_name_bytes_m_n<'a>(m: usize, n: usize, input: &'a [u8]) -> (r: Option<
    (&'a [u8], &'a [u8]),
>)
    requires
        m <= n,
    ensures
        r is None <==> name_run(input@) < m,
        r matches Some((rest, taken)) ==> taken@ == input@.subrange(
            0,
            if name_run(input@) <= n { name_run(input@) as int } else { n as int },
        ) && rest@ == input@.subrange(
            if name_run(input@) <= n { name_run(input@) as int } else { n as int },
            input@.len() as int,
        ),
{
    nom::bytes::complete::take_while_m_n::<_, &[u8], nom::error::Error<&[u8]>>(
        m,
        n,
        is_name_byte,
    )(input).ok()
}

/// `std::str::from_utf8`: the text that `bytes` encode, where they are valid
/// UTF-8, and nothing where they are not.
#[verifier::external_body]
fn str_from_utf8<'a>(bytes: &'a [u8]) -> (r: Option<&'a str>)
    ensures
        r is Some <==> valid_utf8(bytes@),
        r matches Some(text) ==> text@ == decode_utf8(bytes@),
{
    std::str::from_utf8(bytes).ok()
}

/// Decodes the name from a buffer that starts with the name field, and hands
/// back the buffer behind the field with it.
pub fn character_name<'a>(rest: &'a [u8]) -> (r: Result<(&'a [u8], String), ParseError>)
    ensures
        match r {
            Ok((behind, name)) => name_outcome(rest@) == Ok::<Seq<char>, ParseError>(name@)
                && behind@ == rest@.subrange(NAME_FIELD_LEN as int, rest@.len() as int),
            Err(e) => name_outcome(rest@) == Err::<Seq<char>, ParseError>(e),
        },
{
    let (behind, field): (&[u8], &[u8]) = match take(NAME_FIELD_LEN, rest) {
        Some(split) => split,
        None => return Err(ParseError::Incomplete),
    };
    let (_, name_parsed): (&[u8], &[u8]) = match take_name_bytes_m_n(NAME_MIN, NAME_MAX, field) {
        Some(split) => split,
        None => return Err(ParseError::Malformed(MalformedField::Name)),
    };
    match str_from_utf8(name_parsed) {
        Some(name) => Ok((behind, name.to_owned())),
        None => Err(ParseError::Malformed(MalformedField::Name)),
    }
}

/// Decodes the summary block and the name of a save in the current layout.
/// `data` is the whole buffer, so that offsets stay absolute. The buffer
/// behind the assigned-skill block comes back with the character.
pub fn character_current<'a>(data: &'a [u8], version: u32) -> (r: Result<
    (&'a [u8], Character),
    ParseError,
>)
    ensures
        match r {
            Ok((rest, character)) => current_error(data@) is None && describes(data@, character)
                && character.version == version && rest@ == data@.subrange(
                SKILLS_END as int,
                data@.len() as int,
            ),
            Err(e) => current_error(data@) == Some(e),
        },
{
    if data.len() < HEADER_END {
        return Err(ParseError::Incomplete);
    }
    let rest: &[u8] = slice_subrange(data, STATUS_OFFSET, data.len());
    let (rest, status): (&[u8], u8) = match le_u8(rest) {
        Some(read) => read,
        None => return Err(ParseError::Incomplete),
    };
    // progression, unused
    let (rest, _): (&[u8], u8) = match le_u8(rest) {
        Some(read) => read,
        None => return Err(ParseError::Incomplete),
    };
    // active arms, unused
    let (rest, _): (&[u8], u16) = match le_u16(rest) {
        Some(read) => read,
        None => return Err(ParseError::Incomplete),
    };
    let (rest, class_code): (&[u8], u8) = match le_u8(rest) {
        Some(read) => read,
        None => return Err(ParseError::Incomplete),
    };
    let class = match CharacterClass::try_from(class_code) {
        Ok(class) => class,
        Err(e) => return Err(e),
    };
    // padding
    let (rest, _): (&[u8], u16) = match le_u16(rest) {
        Some(read) => read,
        None => return Err(ParseError::Incomplete),
    };
    let (rest, level): (&[u8], u8) = match le_u8(rest) {
        Some(read) => read,
        None => return Err(ParseError::Incomplete),
    };
    let (rest, created_at): (&[u8], u32) = match le_u32(rest) {
        Some(read) => read,
        None => return Err(ParseError::Incomplete),
    };
    let (rest, last_played_at): (&[u8], u32) = match le_u32(rest) {
        Some(read) => read,
        None => return Err(ParseError::Incomplete),
    };
    // padding
    let (rest, _): (&[u8], u32) = match le_u32(rest) {
        Some(read) => read,
        None => return Err(ParseError::Incomplete),
    };
    // assigned skills, not decoded here
    let (rest, _): (&[u8], &[u8]) = match take(40, rest) {
        Some(read) => read,
        None => return Err(ParseError::Incomplete),
    };
    let (_, name): (&[u8], String) = match character_name(
        slice_subrange(data, NAME_OFFSET, data.len()),
    ) {
        Ok(read) => read,
        Err(e) => return Err(e),
    };
    Ok((rest, Character { name, class, version, status, level, created_at, last_played_at }))
}

/// Decodes a character header: the length, the magic signature and the
/// version are tested, then the fields are read.
pub fn character_from_bytes<'a>(data: &'a [u8]) -> (r: Result<(&'a [u8], Character), ParseError>)
    ensures
        match r {
            Ok((rest, character)) => parse_error(data@) is None && describes(data@, character)
                && character.version == le_u32_at(data@, 4) && rest@ == data@.subrange(
                SKILLS_END as int,
                data@.len() as int,
            ),
            Err(e) => parse_error(data@) == Some(e),
        },
{
    if data.len() < HEADER_END {
        return Err(ParseError::Incomplete);
    }
    let signature: [u8; 4] = [0x55, 0xAA, 0x55, 0xAA];
    let rest: &[u8] = match tag(signature.as_slice(), data) {
        Some((rest, _)) => rest,
        None => return Err(ParseError::InvalidFormat),
    };
    let version: u32 = match le_u32(rest) {
        Some((_, version)) => version,
        None => return Err(ParseError::Incomplete),
    };
    if version > LEGACY_VERSION {
        // the whole buffer goes on, to keep offsets absolute
        character_current(data, version)
    } else {
        Err(ParseError::UnsupportedVersion)
    }
}

/// Decodes the header of a character save.
pub fn parse_character(rest: &[u8]) -> (r: Result<Character, ParseError>)
    ensures
        match r {
            Ok(character) => parse_error(rest@) is None && describes(rest@, character)
                && character.version == le_u32_at(rest@, 4),
            Err(e) => parse_error(rest@) == Some(e),
        },
{
    match character_from_bytes(rest) {
        Ok((_, character)) => Ok(character),
        Err(e) => Err(e),
    }
}

/// A buffer that reaches behind the name field, starts with the magic
/// signature, has a version above the legacy threshold, a class code of 0 to 6
/// and a name field that decodes, is a header: decoding it succeeds.
pub proof fn well_formed_header_decodes(data: Seq<u8>)
    requires
        data.len() >= HEADER_END,
        starts_with(data, magic()),
        le_u32_at(data, 4) > LEGACY_VERSION,
        data[CLASS_OFFSET as int] <= 6,
        name_outcome(data.subrange(NAME_OFFSET as int, data.len() as int)) is Ok,
    ensures
        parse_error(data) is None,
{
}

/// A buffer that ends before the name field does is incomplete, whatever it
/// holds.
pub proof fn short_buffer_is_incomplete(data: Seq<u8>)
    requires
        data.len() < HEADER_END,
    ensures
        parse_error(data) == Some(ParseError::Incomplete),
        current_error(data) == Some(ParseError::Incomplete),
{
}

/// Exactly the codes 0 to 6 stand for a class, each for its own.
pub proof fn class_codes(code: u8)
    ensures
        code > 6 <==> class_of_code(code) is None,
        class_of_code(0) == Some(CharacterClass::Amazon),
        class_of_code(1) == Some(CharacterClass::Sorceress),
        class_of_code(2) == Some(CharacterClass::Necromancer),
        class_of_code(3) == Some(CharacterClass::Paladin),
        class_of_code(4) == Some(CharacterClass::Barbarian),
        class_of_code(5) == Some(CharacterClass::Druid),
        class_of_code(6) == Some(CharacterClass::Assassin),
{
}

/// A header whose class code is above 6 does not decode, and the class is
/// what is wrong with it.
pub proof fn unknown_class_is_malformed(data: Seq<u8>)
    requires
        data.len() >= HEADER_END,
        starts_with(data, magic()),
        le_u32_at(data, 4) > LEGACY_VERSION,
        data[CLASS_OFFSET as int] > 6,
    ensures
        parse_error(data) == Some(ParseError::Malformed(MalformedField::Class)),
{
}

/// What a name field decodes to depends on its bytes alone: two decodings of
/// the same field agree.
pub proof fn name_decoding_is_repeatable(
    field: Seq<u8>,
    first: Result<Seq<char>, ParseError>,
    second: Result<Seq<char>, ParseError>,
)
    requires
        first == name_outcome(field),
        second == name_outcome(field),
    ensures
        first == second,
{
}

/// A name field that starts with a null byte holds no name; one of null
/// bytes only is such a field.
pub proof fn name_starting_with_null_fails(field: Seq<u8>)
    requires
        field.len() >= NAME_FIELD_LEN,
        field[0] == 0,
    ensures
        name_outcome(field) == Err::<Seq<char>, ParseError>(
            ParseError::Malformed(MalformedField::Name),
        ),
{
}

/// A name field with a single byte before the first null byte holds no name:
/// a name has two bytes at least.
pub proof fn name_of_one_byte_fails(field: Seq<u8>)
    requires
        field.len() >= NAME_FIELD_LEN,
        field[1] == 0,
    ensures
        name_outcome(field) == Err::<Seq<char>, ParseError>(
            ParseError::Malformed(MalformedField::Name),
        ),
{
    let head = field.subrange(0, NAME_FIELD_LEN as int);
    if head[0] != 0 {
        assert(head.drop_first()[0] == 0);
        assert(name_run(head.drop_first()) == 0);
    }
}

} // verus!
