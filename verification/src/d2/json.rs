//! JSON documents as trees, and the decoding of their leaves.
//!
//! The text is parsed by `serde_json`. What it parsed is copied into a tree of
//! this library, `Json`, and all decoding works on that tree. Numbers with a
//! fraction or an exponent are kept only as numbers that are no integers: no
//! field of a character is one.

use serde_json::Value;
use vstd::prelude::*;
use vstd::string::*;

verus! {

/// A JSON value as `serde_json` holds it.
#[verifier::external_type_specification]
#[verifier::external_body]
pub struct ExValue(Value);

/// A JSON number: as an unsigned integer where it is one, and as a signed
/// integer where it is one that fits in 64 bits. A number that is no integer
/// is neither.
#[derive(Clone, Copy, Debug, PartialEq, Eq, Structural)]
pub struct JsonNumber {
    pub unsigned: Option<u64>,
    pub signed: Option<i64>,
}

/// A JSON value.
#[derive(Debug, PartialEq)]
pub enum Json {
    Null,
    Bool(bool),
    Number(JsonNumber),
    String(String),
    Array(Vec<Json>),
    Object(Vec<JsonField>),
}

/// A member of a JSON object.
#[derive(Debug, PartialEq)]
pub struct JsonField {
    pub name: String,
    pub value: Json,
}

/// What is wrong with a document.
#[derive(Clone, Copy, Debug, PartialEq, Eq, Structural)]
pub enum DecodeErrorKind {
    /// The text is no JSON document.
    Syntax,
    /// An object lacks a field that must be there.
    MissingField,
    /// A value is of another type than the field's.
    InvalidType,
    /// A value is of the field's type and not one of its values.
    InvalidValue,
}

/// One step of the way from the document's root to a value.
#[derive(Clone, Debug, PartialEq, Eq)]
pub enum PathSegment {
    Field(String),
    Index(usize),
}

/// Why a document does not decode: what is wrong, and the way from the root
/// to the value that is wrong, or to the field that is missing.
#[derive(Clone, Debug, PartialEq, Eq)]
pub struct DecodeError {
    pub kind: DecodeErrorKind,
    pub path: Vec<PathSegment>,
}

/// The view of a `PathSegment`.
pub enum PathSegmentView {
    Field(Seq<char>),
    Index(nat),
}

/// The view of a `DecodeError`.
pub struct DecodeErrorView {
    pub kind: DecodeErrorKind,
    pub path: Seq<PathSegmentView>,
}

impl DeepView for PathSegment {
    type V = PathSegmentView;

    open spec fn deep_view(&self) -> PathSegmentView {
        match self {
            PathSegment::Field(name) => PathSegmentView::Field(name@),
            PathSegment::Index(at) => PathSegmentView::Index(*at as nat),
        }
    }
}

impl DeepView for DecodeError {
    type V = DecodeErrorView;

    open spec fn deep_view(&self) -> DecodeErrorView {
        DecodeErrorView { kind: self.kind, path: self.path.deep_view() }
    }
}

/// The digit `d` as a text.
pub open spec fn digit_text(d: nat) -> Seq<char> {
    if d == 0 {
        "0"@
    } else if d == 1 {
        "1"@
    } else if d == 2 {
        "2"@
    } else if d == 3 {
        "3"@
    } else if d == 4 {
        "4"@
    } else if d == 5 {
        "5"@
    } else if d == 6 {
        "6"@
    } else if d == 7 {
        "7"@
    } else if d == 8 {
        "8"@
    } else {
        "9"@
    }
}

/// The number `n` in decimal digits, without leading zeros.
pub open spec fn decimal_text(n: nat) -> Seq<char>
    decreases n,
{
    if n < 10 {
        digit_text(n)
    } else {
        decimal_text(n / 10) + digit_text(n % 10)
    }
}

/// One step of a way as a text: an index in square brackets, a field by its
/// name, behind a dot where it is not the first step.
pub open spec fn segment_text(segment: PathSegmentView, first: bool) -> Seq<char> {
    match segment {
        PathSegmentView::Index(at) => "["@ + decimal_text(at) + "]"@,
        PathSegmentView::Field(name) => if first {
            name
        } else {
            "."@ + name
        },
    }
}

/// A way as a text: its steps in order, as in `items[1].socketed_items[0].id`.
pub open spec fn path_text(path: Seq<PathSegmentView>) -> Seq<char>
    decreases path.len(),
{
    if path.len() == 0 {
        Seq::empty()
    } else {
        path_text(path.drop_last()) + segment_text(path.last(), path.len() == 1)
    }
}

/// What is wrong, as a text.
pub open spec fn kind_text(kind: DecodeErrorKind) -> Seq<char> {
    match kind {
        DecodeErrorKind::Syntax => "the text is no JSON document"@,
        DecodeErrorKind::MissingField => "missing field"@,
        DecodeErrorKind::InvalidType => "invalid type"@,
        DecodeErrorKind::InvalidValue => "invalid value"@,
    }
}

/// An error as a text: what is wrong, and the way to it between backticks
/// where the way is not empty.
pub open spec fn error_text(e: DecodeErrorView) -> Seq<char> {
    if e.path.len() == 0 {
        kind_text(e.kind)
    } else {
        kind_text(e.kind) + " at `"@ + path_text(e.path) + "`"@
    }
}

/// The tree that the text stands for, where it is a JSON document.
pub uninterp spec fn json_document(text: Seq<char>) -> Option<Json>;

/// The tree that a value of `serde_json` stands for.
pub uninterp spec fn value_tree(value: Value) -> Json;

/// `serde_json::from_str` for a `serde_json::Value`: the value that the text
/// stands for, and nothing where the text is no JSON document.
#[verifier::external_body]
fn value_from_str(text: &str) -> (r: Option<Value>)
    ensures
        r is None <==> json_document(text@) is None,
        r matches Some(value) ==> json_document(text@) == Some(value_tree(value)),
{
    serde_json::from_str::<Value>(text).ok()
}

/// Copies a `serde_json::Value` into a tree, variant by variant: a number by
/// `Number::as_u64` and `Number::as_i64`, the members of an object in the
/// order in which `Map::iter` gives them.
#[verifier::external_body]
fn json_of_value(value: &Value) -> (r: Json)
    ensures
        r == value_tree(*value),
{
    match value {
        Value::Null => Json::Null,
        Value::Bool(flag) => Json::Bool(*flag),
        Value::Number(n) => Json::Number(JsonNumber { unsigned: n.as_u64(), signed: n.as_i64() }),
        Value::String(text) => Json::String(text.clone()),
        Value::Array(items) => Json::Array(items.iter().map(json_of_value).collect()),
        Value::Object(members) => Json::Object(
            members
                .iter()
                .map(|(k, v)| JsonField { name: k.clone(), value: json_of_value(v) })
                .collect(),
        ),
    }
}

/// An error of the given kind at the value itself.
pub open spec fn fail(kind: DecodeErrorKind) -> DecodeErrorView {
    DecodeErrorView { kind, path: Seq::empty() }
}

/// The error `e` of a value, seen from the value that holds it at `segment`.
pub open spec fn under(e: DecodeErrorView, segment: PathSegmentView) -> DecodeErrorView {
    DecodeErrorView { kind: e.kind, path: seq![segment] + e.path }
}

/// A result with the error, if it is one, seen from one step further out.
pub open spec fn at<T>(r: Result<T, DecodeErrorView>, segment: PathSegmentView) -> Result<
    T,
    DecodeErrorView,
> {
    match r {
        Ok(v) => Ok(v),
        Err(e) => Err(under(e, segment)),
    }
}

/// Whether what a decoder gave is what the document's tree determines: the
/// value with that view, or the error with that view.
pub open spec fn agrees<T: DeepView>(
    r: Result<T, DecodeError>,
    expected: Result<T::V, DecodeErrorView>,
) -> bool {
    match r {
        Ok(v) => expected == Ok::<T::V, DecodeErrorView>(v.deep_view()),
        Err(e) => expected == Err::<T::V, DecodeErrorView>(e.deep_view()),
    }
}

/// The place of the first member with the given name, or the number of
/// members where none has it.
pub open spec fn field_index(fields: Seq<JsonField>, name: Seq<char>) -> int
    decreases fields.len(),
{
    if fields.len() == 0 {
        0
    } else if fields[0].name@ == name {
        0
    } else {
        1 + field_index(fields.drop_first(), name)
    }
}

/// The value of the first member with the given name.
pub open spec fn field_value(fields: Seq<JsonField>, name: Seq<char>) -> Option<Json> {
    let at = field_index(fields, name);
    if 0 <= at < fields.len() {
        Some(fields[at].value)
    } else {
        None
    }
}

/// The field that must be there, decoded: a missing one is an error at the
/// field, and so is one that does not decode.
pub open spec fn required<T>(
    fields: Seq<JsonField>,
    name: Seq<char>,
    decoded: spec_fn(Json) -> Result<T, DecodeErrorView>,
) -> Result<T, DecodeErrorView> {
    match field_value(fields, name) {
        None => Err(under(fail(DecodeErrorKind::MissingField), PathSegmentView::Field(name))),
        Some(value) => at(decoded(value), PathSegmentView::Field(name)),
    }
}

/// The field that may be there, decoded: a missing one and `null` are no
/// value; one that does not decode is an error at the field.
pub open spec fn optional<T>(
    fields: Seq<JsonField>,
    name: Seq<char>,
    decoded: spec_fn(Json) -> Result<T, DecodeErrorView>,
) -> Result<Option<T>, DecodeErrorView> {
    match field_value(fields, name) {
        None => Ok(None),
        Some(Json::Null) => Ok(None),
        Some(value) => match decoded(value) {
            Ok(v) => Ok(Some(v)),
            Err(e) => Err(under(e, PathSegmentView::Field(name))),
        },
    }
}

/// The first `n` items of a list, decoded in order: the first item that does
/// not decode is the error, at its index.
pub open spec fn list_of<T>(
    items: Seq<Json>,
    n: nat,
    decoded: spec_fn(Json) -> Result<T, DecodeErrorView>,
) -> Result<Seq<T>, DecodeErrorView>
    decreases n,
{
    if n == 0 {
        Ok(Seq::empty())
    } else {
        match list_of(items, (n - 1) as nat, decoded) {
            Err(e) => Err(e),
            Ok(before) => match decoded(items[n - 1]) {
                Ok(v) => Ok(before.push(v)),
                Err(e) => Err(under(e, PathSegmentView::Index((n - 1) as nat))),
            },
        }
    }
}

/// An array, each item decoded.
pub open spec fn array_of<T>(
    j: Json,
    decoded: spec_fn(Json) -> Result<T, DecodeErrorView>,
) -> Result<Seq<T>, DecodeErrorView> {
    match j {
        Json::Array(items) => list_of(items@, items@.len(), decoded),
        _ => Err(fail(DecodeErrorKind::InvalidType)),
    }
}

/// A boolean.
pub open spec fn bool_of(j: Json) -> Result<bool, DecodeErrorView> {
    match j {
        Json::Bool(flag) => Ok(flag),
        _ => Err(fail(DecodeErrorKind::InvalidType)),
    }
}

/// An unsigned integer of at most `max`. Another integer is an invalid
/// value; a number that is no integer, and what is no number, is of an
/// invalid type.
pub open spec fn unsigned_of(j: Json, max: u64) -> Result<u64, DecodeErrorView> {
    match j {
        Json::Number(n) => match n.unsigned {
            Some(v) => if v <= max {
                Ok(v)
            } else {
                Err(fail(DecodeErrorKind::InvalidValue))
            },
            None => if n.signed is Some {
                Err(fail(DecodeErrorKind::InvalidValue))
            } else {
                Err(fail(DecodeErrorKind::InvalidType))
            },
        },
        _ => Err(fail(DecodeErrorKind::InvalidType)),
    }
}

pub open spec fn u8_of(j: Json) -> Result<u8, DecodeErrorView> {
    match unsigned_of(j, 0xFF) {
        Ok(v) => Ok(v as u8),
        Err(e) => Err(e),
    }
}

pub open spec fn u16_of(j: Json) -> Result<u16, DecodeErrorView> {
    match unsigned_of(j, 0xFFFF) {
        Ok(v) => Ok(v as u16),
        Err(e) => Err(e),
    }
}

pub open spec fn u32_of(j: Json) -> Result<u32, DecodeErrorView> {
    match unsigned_of(j, 0xFFFF_FFFF) {
        Ok(v) => Ok(v as u32),
        Err(e) => Err(e),
    }
}

/// A signed integer of 32 bits, with the errors of `unsigned_of`.
pub open spec fn i32_of(j: Json) -> Result<i32, DecodeErrorView> {
    match j {
        Json::Number(n) => match n.signed {
            Some(v) => if -0x8000_0000 <= v <= 0x7FFF_FFFF {
                Ok(v as i32)
            } else {
                Err(fail(DecodeErrorKind::InvalidValue))
            },
            None => if n.unsigned is Some {
                Err(fail(DecodeErrorKind::InvalidValue))
            } else {
                Err(fail(DecodeErrorKind::InvalidType))
            },
        },
        _ => Err(fail(DecodeErrorKind::InvalidType)),
    }
}

/// A text.
pub open spec fn string_of(j: Json) -> Result<Seq<char>, DecodeErrorView> {
    match j {
        Json::String(text) => Ok(text@),
        _ => Err(fail(DecodeErrorKind::InvalidType)),
    }
}

/// A list of texts.
pub open spec fn strings_of(j: Json) -> Result<Seq<Seq<char>>, DecodeErrorView> {
    array_of(j, string_decoder())
}

/// A list of signed integers.
pub open spec fn i32s_of(j: Json) -> Result<Seq<i32>, DecodeErrorView> {
    array_of(j, i32_decoder())
}

/// An unsigned integer of 16 bits, or `null` for none.
pub open spec fn u16_option_of(j: Json) -> Result<Option<u16>, DecodeErrorView> {
    match j {
        Json::Null => Ok(None),
        _ => match u16_of(j) {
            Ok(v) => Ok(Some(v)),
            Err(e) => Err(e),
        },
    }
}

/// A list of unsigned integers of 16 bits, each of which may be `null`.
pub open spec fn u16_options_of(j: Json) -> Result<Seq<Option<u16>>, DecodeErrorView> {
    array_of(j, u16_option_decoder())
}

/// The place that `field_index` gives is that of the first member with the
/// name.
pub proof fn field_index_is_first(fields: Seq<JsonField>, name: Seq<char>, at: int)
    requires
        0 <= at <= fields.len(),
        forall|k: int| 0 <= k < at ==> fields[k].name@ != name,
        at < fields.len() ==> fields[at].name@ == name,
    ensures
        field_index(fields, name) == at,
    decreases fields.len(),
{
    if fields.len() != 0 && at != 0 {
        let rest = fields.drop_first();
        assert(fields[0].name@ != name);
        assert forall|k: int| 0 <= k < at - 1 implies rest[k].name@ != name by {
            assert(rest[k] == fields[k + 1]);
        }
        field_index_is_first(rest, name, at - 1);
    }
}

/// A member behind the others changes the value that is found under a name
/// only where it has that name and none of the others has it: members of
/// other names are passed over.
pub proof fn member_of_other_name_changes_nothing(
    fields: Seq<JsonField>,
    extra: JsonField,
    name: Seq<char>,
)
    requires
        extra.name@ != name,
    ensures
        field_value(fields.push(extra), name) == field_value(fields, name),
    decreases fields.len(),
{
    let more = fields.push(extra);
    if fields.len() == 0 {
        assert(more.drop_first() =~= Seq::<JsonField>::empty());
        assert(field_index(more, name) == 1);
    } else if fields[0].name@ == name {
        assert(more[0] == fields[0]);
    } else {
        let rest = fields.drop_first();
        let more_rest = more.drop_first();
        assert(more_rest =~= rest.push(extra));
        assert(more[0] == fields[0]);
        member_of_other_name_changes_nothing(rest, extra, name);
        field_index_bounds(rest, name);
        field_index_bounds(more_rest, name);
        let at = field_index(rest, name);
        let more_at = field_index(more_rest, name);
        assert(field_index(fields, name) == 1 + at);
        assert(field_index(more, name) == 1 + more_at);
        if at < rest.len() {
            assert(rest[at] == fields[at + 1]);
        }
        if more_at < more_rest.len() {
            assert(more_rest[more_at] == more[more_at + 1]);
        }
    }
}

/// The place that `field_index` gives lies within the members or just
/// behind them.
pub proof fn field_index_bounds(fields: Seq<JsonField>, name: Seq<char>)
    ensures
        0 <= field_index(fields, name) <= fields.len(),
    decreases fields.len(),
{
    if fields.len() != 0 && fields[0].name@ != name {
        field_index_bounds(fields.drop_first(), name);
    }
}

/// Once an item of a list has failed to decode, the items behind it change
/// nothing.
pub proof fn list_error_persists<T>(
    items: Seq<Json>,
    n: nat,
    m: nat,
    decoded: spec_fn(Json) -> Result<T, DecodeErrorView>,
)
    requires
        n <= m,
        list_of(items, n, decoded) is Err,
    ensures
        list_of(items, m, decoded) == list_of(items, n, decoded),
    decreases m,
{
    if n < m {
        list_error_persists(items, n, (m - 1) as nat, decoded);
    }
}

impl DecodeError {
    /// An error of the given kind at the value itself.
    pub fn new(kind: DecodeErrorKind) -> (r: DecodeError)
        ensures
            r.deep_view() == fail(kind),
    {
        let r = DecodeError { kind, path: Vec::new() };
        assert(r.path.deep_view() =~= Seq::<PathSegmentView>::empty());
        r
    }

    /// The error seen from one step further out.
    fn under(self, segment: PathSegment) -> (r: DecodeError)
        ensures
            r.deep_view() == under(self.deep_view(), segment.deep_view()),
    {
        let ghost before = self.path.deep_view();
        let ghost first = segment.deep_view();
        let mut path = self.path;
        path.insert(0, segment);
        let r = DecodeError { kind: self.kind, path };
        assert(r.path.deep_view() =~= seq![first] + before);
        r
    }

    /// The error seen from the object that holds the value in a field.
    pub fn under_field(self, name: &str) -> (r: DecodeError)
        ensures
            r.deep_view() == under(self.deep_view(), PathSegmentView::Field(name@)),
    {
        self.under(PathSegment::Field(name.to_owned()))
    }

    /// The error seen from the array that holds the value at an index.
    pub fn under_index(self, index: usize) -> (r: DecodeError)
        ensures
            r.deep_view() == under(self.deep_view(), PathSegmentView::Index(index as nat)),
    {
        self.under(PathSegment::Index(index))
    }
}

/// The digit `d` as a text.
fn digit_str(d: usize) -> (r: &'static str)
    requires
        d < 10,
    ensures
        r@ == digit_text(d as nat),
{
    if d == 0 {
        "0"
    } else if d == 1 {
        "1"
    } else if d == 2 {
        "2"
    } else if d == 3 {
        "3"
    } else if d == 4 {
        "4"
    } else if d == 5 {
        "5"
    } else if d == 6 {
        "6"
    } else if d == 7 {
        "7"
    } else if d == 8 {
        "8"
    } else {
        "9"
    }
}

/// Appends the number `n` in decimal digits.
fn append_decimal(out: &mut String, n: usize)
    ensures
        final(out)@ == old(out)@ + decimal_text(n as nat),
    decreases n,
{
    if n < 10 {
        out.append(digit_str(n));
    } else {
        let ghost before = out@;
        append_decimal(out, n / 10);
        out.append(digit_str(n % 10));
        assert(out@ =~= before + (decimal_text((n / 10) as nat) + digit_text((n % 10) as nat)));
    }
}

impl DecodeError {
    /// The way to what is wrong, as a text.
    pub fn path_string(&self) -> (r: String)
        ensures
            r@ == path_text(self.deep_view().path),
    {
        let mut out: String = String::new();
        let mut i: usize = 0;
        let ghost path = self.path.deep_view();
        assert(path.take(0) =~= Seq::<PathSegmentView>::empty());
        while i < self.path.len()
            invariant
                i <= self.path@.len(),
                path == self.path.deep_view(),
                out@ == path_text(path.take(i as int)),
            decreases self.path@.len() - i,
        {
            let ghost before = out@;
            assert(path.take(i + 1).drop_last() =~= path.take(i as int));
            assert(path.take(i + 1).last() == self.path@[i as int].deep_view());
            match &self.path[i] {
                PathSegment::Index(at) => {
                    out.append("[");
                    append_decimal(&mut out, *at);
                    out.append("]");
                    assert(out@ =~= before + ("["@ + decimal_text(*at as nat) + "]"@));
                },
                PathSegment::Field(name) => {
                    if i != 0 {
                        out.append(".");
                    }
                    out.append(name.as_str());
                    assert(out@ =~= before + segment_text(
                        PathSegmentView::Field(name@),
                        i == 0,
                    ));
                },
            }
            i += 1;
        }
        assert(path.take(i as int) =~= path);
        out
    }

    /// The error as a text.
    pub fn to_string(&self) -> (r: String)
        ensures
            r@ == error_text(self.deep_view()),
    {
        let mut out: String = match self.kind {
            DecodeErrorKind::Syntax => "the text is no JSON document".to_owned(),
            DecodeErrorKind::MissingField => "missing field".to_owned(),
            DecodeErrorKind::InvalidType => "invalid type".to_owned(),
            DecodeErrorKind::InvalidValue => "invalid value".to_owned(),
        };
        if self.path.len() != 0 {
            let way: String = self.path_string();
            out.append(" at `");
            out.append(way.as_str());
            out.append("`");
        }
        out
    }
}

/// The value of the first member with the given name.
pub fn find<'a>(fields: &'a Vec<JsonField>, name: &str) -> (r: Option<&'a Json>)
    ensures
        match r {
            Some(value) => field_value(fields@, name@) == Some(*value) && 0 <= field_index(
                fields@,
                name@,
            ) < fields@.len() && *value == fields@[field_index(fields@, name@)].value,
            None => field_value(fields@, name@) is None,
        },
{
    let key: String = name.to_owned();
    let mut i: usize = 0;
    while i < fields.len()
        invariant
            i <= fields@.len(),
            key@ == name@,
            forall|k: int| 0 <= k < i ==> fields@[k].name@ != name@,
        decreases fields@.len() - i,
    {
        if fields[i].name == key {
            proof {
                field_index_is_first(fields@, name@, i as int);
            }
            return Some(&fields[i].value);
        }
        i += 1;
    }
    proof {
        field_index_is_first(fields@, name@, i as int);
    }
    None
}

/// Decodes a boolean.
pub fn decode_bool(j: &Json) -> (r: Result<bool, DecodeError>)
    ensures
        agrees(r, bool_of(*j)),
{
    match j {
        Json::Bool(flag) => Ok(*flag),
        _ => Err(DecodeError::new(DecodeErrorKind::InvalidType)),
    }
}

/// Decodes an unsigned integer of at most `max`.
pub fn decode_unsigned(j: &Json, max: u64) -> (r: Result<u64, DecodeError>)
    ensures
        agrees(r, unsigned_of(*j, max)),
{
    match j {
        Json::Number(n) => match n.unsigned {
            Some(v) => if v <= max {
                Ok(v)
            } else {
                Err(DecodeError::new(DecodeErrorKind::InvalidValue))
            },
            None => if n.signed.is_some() {
                Err(DecodeError::new(DecodeErrorKind::InvalidValue))
            } else {
                Err(DecodeError::new(DecodeErrorKind::InvalidType))
            },
        },
        _ => Err(DecodeError::new(DecodeErrorKind::InvalidType)),
    }
}

/// Decodes an unsigned integer of 8 bits.
pub fn decode_u8(j: &Json) -> (r: Result<u8, DecodeError>)
    ensures
        agrees(r, u8_of(*j)),
{
    match decode_unsigned(j, 0xFF) {
        Ok(v) => Ok(v as u8),
        Err(e) => Err(e),
    }
}

/// Decodes an unsigned integer of 16 bits.
pub fn decode_u16(j: &Json) -> (r: Result<u16, DecodeError>)
    ensures
        agrees(r, u16_of(*j)),
{
    match decode_unsigned(j, 0xFFFF) {
        Ok(v) => Ok(v as u16),
        Err(e) => Err(e),
    }
}

/// Decodes an unsigned integer of 32 bits.
pub fn decode_u32(j: &Json) -> (r: Result<u32, DecodeError>)
    ensures
        agrees(r, u32_of(*j)),
{
    match decode_unsigned(j, 0xFFFF_FFFF) {
        Ok(v) => Ok(v as u32),
        Err(e) => Err(e),
    }
}

/// Decodes a signed integer of 32 bits.
pub fn decode_i32(j: &Json) -> (r: Result<i32, DecodeError>)
    ensures
        agrees(r, i32_of(*j)),
{
    match j {
        Json::Number(n) => match n.signed {
            Some(v) => if -0x8000_0000 <= v && v <= 0x7FFF_FFFF {
                Ok(v as i32)
            } else {
                Err(DecodeError::new(DecodeErrorKind::InvalidValue))
            },
            None => if n.unsigned.is_some() {
                Err(DecodeError::new(DecodeErrorKind::InvalidValue))
            } else {
                Err(DecodeError::new(DecodeErrorKind::InvalidType))
            },
        },
        _ => Err(DecodeError::new(DecodeErrorKind::InvalidType)),
    }
}

/// Decodes a text.
pub fn decode_string(j: &Json) -> (r: Result<String, DecodeError>)
    ensures
        agrees(r, string_of(*j)),
{
    match j {
        Json::String(text) => Ok(text.clone()),
        _ => Err(DecodeError::new(DecodeErrorKind::InvalidType)),
    }
}

/// Decodes an unsigned integer of 16 bits that may be `null`.
pub fn decode_u16_option(j: &Json) -> (r: Result<Option<u16>, DecodeError>)
    ensures
        agrees(r, u16_option_of(*j)),
{
    match j {
        Json::Null => Ok(None),
        _ => match decode_u16(j) {
            Ok(v) => Ok(Some(v)),
            Err(e) => Err(e),
        },
    }
}

/// Parses a text as a JSON document.
pub fn parse_json(text: &str) -> (r: Option<Json>)
    ensures
        r == json_document(text@),
{
    match value_from_str(text) {
        Some(value) => Some(json_of_value(&value)),
        None => None,
    }
}

/// `bool_of` as a decoder of list items and of fields.
pub open spec fn bool_decoder() -> spec_fn(Json) -> Result<bool, DecodeErrorView> {
    |j: Json| bool_of(j)
}

/// `u8_of` as a decoder of list items and of fields.
pub open spec fn u8_decoder() -> spec_fn(Json) -> Result<u8, DecodeErrorView> {
    |j: Json| u8_of(j)
}

/// `u16_of` as a decoder of list items and of fields.
pub open spec fn u16_decoder() -> spec_fn(Json) -> Result<u16, DecodeErrorView> {
    |j: Json| u16_of(j)
}

/// `u32_of` as a decoder of list items and of fields.
pub open spec fn u32_decoder() -> spec_fn(Json) -> Result<u32, DecodeErrorView> {
    |j: Json| u32_of(j)
}

/// `i32_of` as a decoder of list items and of fields.
pub open spec fn i32_decoder() -> spec_fn(Json) -> Result<i32, DecodeErrorView> {
    |j: Json| i32_of(j)
}

/// `string_of` as a decoder of list items and of fields.
pub open spec fn string_decoder() -> spec_fn(Json) -> Result<Seq<char>, DecodeErrorView> {
    |j: Json| string_of(j)
}

/// `strings_of` as a decoder of list items and of fields.
pub open spec fn strings_decoder() -> spec_fn(Json) -> Result<Seq<Seq<char>>, DecodeErrorView> {
    |j: Json| strings_of(j)
}

/// `i32s_of` as a decoder of list items and of fields.
pub open spec fn i32s_decoder() -> spec_fn(Json) -> Result<Seq<i32>, DecodeErrorView> {
    |j: Json| i32s_of(j)
}

/// `u16_option_of` as a decoder of list items and of fields.
pub open spec fn u16_option_decoder() -> spec_fn(Json) -> Result<Option<u16>, DecodeErrorView> {
    |j: Json| u16_option_of(j)
}

/// `u16_options_of` as a decoder of list items and of fields.
pub open spec fn u16_options_decoder() -> spec_fn(Json) -> Result<
    Seq<Option<u16>>,
    DecodeErrorView,
> {
    |j: Json| u16_options_of(j)
}

/// Decodes a list of texts.
pub fn decode_strings(j: &Json) -> (r: Result<Vec<String>, DecodeError>)
    ensures
        agrees(r, strings_of(*j)),
{
    let items: &Vec<Json> = match j {
        Json::Array(items) => items,
        _ => return Err(DecodeError::new(DecodeErrorKind::InvalidType)),
    };
    let mut out: Vec<String> = Vec::new();
    let mut i: usize = 0;
    assert(out.deep_view() =~= Seq::<Seq<char>>::empty());
    while i < items.len()
        invariant
            i <= items@.len(),
            *j == Json::Array(*items),
            list_of(items@, i as nat, string_decoder()) == Ok::<
                Seq<Seq<char>>,
                DecodeErrorView,
            >(out.deep_view()),
        decreases items@.len() - i,
    {
        match decode_string(&items[i]) {
            Ok(v) => {
                let ghost before = out.deep_view();
                let ghost added = v.deep_view();
                out.push(v);
                assert(out.deep_view() =~= before.push(added));
            },
            Err(e) => {
                proof {
                    list_error_persists(
                        items@,
                        (i + 1) as nat,
                        items@.len(),
                        string_decoder(),
                    );
                }
                return Err(e.under_index(i));
            },
        }
        i += 1;
    }
    Ok(out)
}

/// Decodes a list of signed integers.
pub fn decode_i32s(j: &Json) -> (r: Result<Vec<i32>, DecodeError>)
    ensures
        agrees(r, i32s_of(*j)),
{
    let items: &Vec<Json> = match j {
        Json::Array(items) => items,
        _ => return Err(DecodeError::new(DecodeErrorKind::InvalidType)),
    };
    let mut out: Vec<i32> = Vec::new();
    let mut i: usize = 0;
    assert(out.deep_view() =~= Seq::<i32>::empty());
    while i < items.len()
        invariant
            i <= items@.len(),
            *j == Json::Array(*items),
            list_of(items@, i as nat, i32_decoder()) == Ok::<
                Seq<i32>,
                DecodeErrorView,
            >(out.deep_view()),
        decreases items@.len() - i,
    {
        match decode_i32(&items[i]) {
            Ok(v) => {
                let ghost before = out.deep_view();
                let ghost added = v.deep_view();
                out.push(v);
                assert(out.deep_view() =~= before.push(added));
            },
            Err(e) => {
                proof {
                    list_error_persists(
                        items@,
                        (i + 1) as nat,
                        items@.len(),
                        i32_decoder(),
                    );
                }
                return Err(e.under_index(i));
            },
        }
        i += 1;
    }
    Ok(out)
}

/// Decodes a list of unsigned integers of 16 bits, each of which may be `null`.
pub fn decode_u16_options(j: &Json) -> (r: Result<Vec<Option<u16>>, DecodeError>)
    ensures
        agrees(r, u16_options_of(*j)),
{
    let items: &Vec<Json> = match j {
        Json::Array(items) => items,
        _ => return Err(DecodeError::new(DecodeErrorKind::InvalidType)),
    };
    let mut out: Vec<Option<u16>> = Vec::new();
    let mut i: usize = 0;
    assert(out.deep_view() =~= Seq::<Option<u16>>::empty());
    while i < items.len()
        invariant
            i <= items@.len(),
            *j == Json::Array(*items),
            list_of(items@, i as nat, u16_option_decoder()) == Ok::<
                Seq<Option<u16>>,
                DecodeErrorView,
            >(out.deep_view()),
        decreases items@.len() - i,
    {
        match decode_u16_option(&items[i]) {
            Ok(v) => {
                let ghost before = out.deep_view();
                let ghost added = v.deep_view();
                out.push(v);
                assert(out.deep_view() =~= before.push(added));
            },
            Err(e) => {
                proof {
                    list_error_persists(
                        items@,
                        (i + 1) as nat,
                        items@.len(),
                        u16_option_decoder(),
                    );
                }
                return Err(e.under_index(i));
            },
        }
        i += 1;
    }
    Ok(out)
}

/// The field `name`, which must be there.
pub(crate) fn req_u8(fields: &Vec<JsonField>, name: &str) -> (r: Result<u8, DecodeError>)
    ensures
        agrees(r, required(fields@, name@, u8_decoder())),
{
    match find(fields, name) {
        None => Err(DecodeError::new(DecodeErrorKind::MissingField).under_field(name)),
        Some(value) => match decode_u8(value) {
            Ok(v) => Ok(v),
            Err(e) => Err(e.under_field(name)),
        },
    }
}

/// The field `name`, which must be there.
pub(crate) fn req_u32(fields: &Vec<JsonField>, name: &str) -> (r: Result<u32, DecodeError>)
    ensures
        agrees(r, required(fields@, name@, u32_decoder())),
{
    match find(fields, name) {
        None => Err(DecodeError::new(DecodeErrorKind::MissingField).under_field(name)),
        Some(value) => match decode_u32(value) {
            Ok(v) => Ok(v),
            Err(e) => Err(e.under_field(name)),
        },
    }
}

/// The field `name`, which must be there.
pub(crate) fn req_bool(fields: &Vec<JsonField>, name: &str) -> (r: Result<bool, DecodeError>)
    ensures
        agrees(r, required(fields@, name@, bool_decoder())),
{
    match find(fields, name) {
        None => Err(DecodeError::new(DecodeErrorKind::MissingField).under_field(name)),
        Some(value) => match decode_bool(value) {
            Ok(v) => Ok(v),
            Err(e) => Err(e.under_field(name)),
        },
    }
}

/// The field `name`, which must be there.
pub(crate) fn req_string(fields: &Vec<JsonField>, name: &str) -> (r: Result<String, DecodeError>)
    ensures
        agrees(r, required(fields@, name@, string_decoder())),
{
    match find(fields, name) {
        None => Err(DecodeError::new(DecodeErrorKind::MissingField).under_field(name)),
        Some(value) => match decode_string(value) {
            Ok(v) => Ok(v),
            Err(e) => Err(e.under_field(name)),
        },
    }
}

/// The field `name`, which must be there.
pub(crate) fn req_strings(fields: &Vec<JsonField>, name: &str) -> (r: Result<
    Vec<String>,
    DecodeError,
>)
    ensures
        agrees(r, required(fields@, name@, strings_decoder())),
{
    match find(fields, name) {
        None => Err(DecodeError::new(DecodeErrorKind::MissingField).under_field(name)),
        Some(value) => match decode_strings(value) {
            Ok(v) => Ok(v),
            Err(e) => Err(e.under_field(name)),
        },
    }
}

/// The field `name`, which must be there.
pub(crate) fn req_i32s(fields: &Vec<JsonField>, name: &str) -> (r: Result<Vec<i32>, DecodeError>)
    ensures
        agrees(r, required(fields@, name@, i32s_decoder())),
{
    match find(fields, name) {
        None => Err(DecodeError::new(DecodeErrorKind::MissingField).under_field(name)),
        Some(value) => match decode_i32s(value) {
            Ok(v) => Ok(v),
            Err(e) => Err(e.under_field(name)),
        },
    }
}

/// The field `name`, where it is there and not `null`.
pub(crate) fn opt_string(fields: &Vec<JsonField>, name: &str) -> (r: Result<
    Option<String>,
    DecodeError,
>)
    ensures
        agrees(r, optional(fields@, name@, string_decoder())),
{
    match find(fields, name) {
        None => Ok(None),
        Some(value) => match value {
            Json::Null => Ok(None),
            _ => match decode_string(value) {
                Ok(v) => Ok(Some(v)),
                Err(e) => Err(e.under_field(name)),
            },
        },
    }
}

/// The field `name`, where it is there and not `null`.
pub(crate) fn opt_strings(fields: &Vec<JsonField>, name: &str) -> (r: Result<
    Option<Vec<String>>,
    DecodeError,
>)
    ensures
        agrees(r, optional(fields@, name@, strings_decoder())),
{
    match find(fields, name) {
        None => Ok(None),
        Some(value) => match value {
            Json::Null => Ok(None),
            _ => match decode_strings(value) {
                Ok(v) => Ok(Some(v)),
                Err(e) => Err(e.under_field(name)),
            },
        },
    }
}

/// The field `name`, where it is there and not `null`.
pub(crate) fn opt_bool(fields: &Vec<JsonField>, name: &str) -> (r: Result<
    Option<bool>,
    DecodeError,
>)
    ensures
        agrees(r, optional(fields@, name@, bool_decoder())),
{
    match find(fields, name) {
        None => Ok(None),
        Some(value) => match value {
            Json::Null => Ok(None),
            _ => match decode_bool(value) {
                Ok(v) => Ok(Some(v)),
                Err(e) => Err(e.under_field(name)),
            },
        },
    }
}

/// The field `name`, where it is there and not `null`.
pub(crate) fn opt_u8(fields: &Vec<JsonField>, name: &str) -> (r: Result<Option<u8>, DecodeError>)
    ensures
        agrees(r, optional(fields@, name@, u8_decoder())),
{
    match find(fields, name) {
        None => Ok(None),
        Some(value) => match value {
            Json::Null => Ok(None),
            _ => match decode_u8(value) {
                Ok(v) => Ok(Some(v)),
                Err(e) => Err(e.under_field(name)),
            },
        },
    }
}

/// The field `name`, where it is there and not `null`.
pub(crate) fn opt_u16(fields: &Vec<JsonField>, name: &str) -> (r: Result<Option<u16>, DecodeError>)
    ensures
        agrees(r, optional(fields@, name@, u16_decoder())),
{
    match find(fields, name) {
        None => Ok(None),
        Some(value) => match value {
            Json::Null => Ok(None),
            _ => match decode_u16(value) {
                Ok(v) => Ok(Some(v)),
                Err(e) => Err(e.under_field(name)),
            },
        },
    }
}

/// The field `name`, where it is there and not `null`.
pub(crate) fn opt_u32(fields: &Vec<JsonField>, name: &str) -> (r: Result<Option<u32>, DecodeError>)
    ensures
        agrees(r, optional(fields@, name@, u32_decoder())),
{
    match find(fields, name) {
        None => Ok(None),
        Some(value) => match value {
            Json::Null => Ok(None),
            _ => match decode_u32(value) {
                Ok(v) => Ok(Some(v)),
                Err(e) => Err(e.under_field(name)),
            },
        },
    }
}

/// The field `name`, where it is there and not `null`.
pub(crate) fn opt_u16_options(fields: &Vec<JsonField>, name: &str) -> (r: Result<
    Option<Vec<Option<u16>>>,
    DecodeError,
>)
    ensures
        agrees(r, optional(fields@, name@, u16_options_decoder())),
{
    match find(fields, name) {
        None => Ok(None),
        Some(value) => match value {
            Json::Null => Ok(None),
            _ => match decode_u16_options(value) {
                Ok(v) => Ok(Some(v)),
                Err(e) => Err(e.under_field(name)),
            },
        },
    }
}

} // verus!
