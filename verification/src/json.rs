//! Read access to a parsed JSON tree.
//!
//! The tree itself is a `serde_json::Value`. Verified code never looks inside
//! one: it asks the accessors below, whose contracts are stated over
//! [`JsonData`], the mathematical content of a value.

use vstd::prelude::*;

verus! {

/// `serde_json::Value`, a JSON tree. Nothing of it is visible here but
/// through [`json_data`].
#[verifier::external_type_specification]
#[verifier::external_body]
pub struct ExValue(serde_json::Value);

/// `serde_json::Number`, a JSON number. Nothing of it is visible here but
/// through [`number_data`].
#[verifier::external_type_specification]
#[verifier::external_body]
pub struct ExNumber(serde_json::Number);

/// `serde_json::Error`, the JSON parser's error. It is carried, never read.
#[verifier::external_type_specification]
#[verifier::external_body]
pub struct ExJsonError(serde_json::Error);

/// The content of a JSON number.
pub enum JsonNumber {
    /// A number held as an integer: one written without fraction or
    /// exponent, between `i64::MIN` and `u64::MAX`.
    Integer(int),
    /// Any other number, held as a finite double, by its bit pattern.
    Real(u64),
}

/// The content of a JSON value.
pub enum JsonData {
    Null,
    Bool(bool),
    Number(JsonNumber),
    Text(Seq<char>),
    Array(Seq<JsonData>),
    Object(Map<Seq<char>, JsonData>),
}

impl JsonNumber {
    /// The number as an unsigned 64-bit integer, where it is one.
    pub open spec fn as_u64(self) -> Option<u64> {
        match self {
            JsonNumber::Integer(n) if 0 <= n <= u64::MAX => Some(n as u64),
            _ => None,
        }
    }

    /// The number as a signed 64-bit integer, where it is one.
    pub open spec fn as_i64(self) -> Option<i64> {
        match self {
            JsonNumber::Integer(n) if i64::MIN <= n <= i64::MAX => Some(n as i64),
            _ => None,
        }
    }
}

impl JsonData {
    /// The text of a string value.
    pub open spec fn as_text(self) -> Option<Seq<char>> {
        match self {
            JsonData::Text(s) => Some(s),
            _ => None,
        }
    }

    /// The elements of an array.
    pub open spec fn as_items(self) -> Option<Seq<JsonData>> {
        match self {
            JsonData::Array(items) => Some(items),
            _ => None,
        }
    }

    /// The truth value of a boolean.
    pub open spec fn as_bool(self) -> Option<bool> {
        match self {
            JsonData::Bool(b) => Some(b),
            _ => None,
        }
    }

    /// The number of a number value.
    pub open spec fn as_number(self) -> Option<JsonNumber> {
        match self {
            JsonData::Number(n) => Some(n),
            _ => None,
        }
    }

    /// The value as an unsigned 64-bit integer, where it is one.
    pub open spec fn as_u64(self) -> Option<u64> {
        match self {
            JsonData::Number(n) => n.as_u64(),
            _ => None,
        }
    }

    /// The value as a signed 64-bit integer, where it is one.
    pub open spec fn as_i64(self) -> Option<i64> {
        match self {
            JsonData::Number(n) => n.as_i64(),
            _ => None,
        }
    }

    /// The value as an unsigned 32-bit integer, where it is one.
    pub open spec fn as_u32(self) -> Option<u32> {
        match self.as_u64() {
            Some(n) if n <= u32::MAX => Some(n as u32),
            _ => None,
        }
    }

    /// The member of an object under `key`.
    pub open spec fn field(self, key: Seq<char>) -> Option<JsonData> {
        match self {
            JsonData::Object(members) if members.contains_key(key) => Some(members[key]),
            _ => None,
        }
    }

    /// The member under `key`, where it is a string.
    pub open spec fn text_field(self, key: Seq<char>) -> Option<Seq<char>> {
        match self.field(key) {
            Some(member) => member.as_text(),
            None => None,
        }
    }

    /// The member under `key`, where it is a number.
    pub open spec fn number_field(self, key: Seq<char>) -> Option<JsonNumber> {
        match self.field(key) {
            Some(member) => member.as_number(),
            None => None,
        }
    }

    /// The member under `key`, where it is a boolean.
    pub open spec fn bool_field(self, key: Seq<char>) -> Option<bool> {
        match self.field(key) {
            Some(member) => member.as_bool(),
            None => None,
        }
    }

    /// The member under `key`, where it is an unsigned 32-bit integer.
    pub open spec fn u32_field(self, key: Seq<char>) -> Option<u32> {
        match self.field(key) {
            Some(member) => member.as_u32(),
            None => None,
        }
    }

    /// The member under `key` that a record may leave out or set to null:
    /// `Some(None)` where it does, `Some(Some(..))` for a string, and `None`
    /// for a member of another kind.
    pub open spec fn optional_text_field(self, key: Seq<char>) -> Option<Option<Seq<char>>> {
        match self.field(key) {
            None | Some(JsonData::Null) => Some(None),
            Some(JsonData::Text(s)) => Some(Some(s)),
            Some(_) => None,
        }
    }

    /// As `optional_text_field`, for an unsigned 32-bit integer.
    pub open spec fn optional_u32_field(self, key: Seq<char>) -> Option<Option<u32>> {
        match self.field(key) {
            None | Some(JsonData::Null) => Some(None),
            Some(member) => match member.as_u32() {
                Some(n) => Some(Some(n)),
                None => None,
            },
        }
    }
}

/// The values that the elements of an array spell under `decode`, in their
/// order, or the failure of the first element that spells none.
pub open spec fn each<T, E>(items: Seq<JsonData>, decode: spec_fn(JsonData) -> Result<T, E>) -> Result<
    Seq<T>,
    E,
>
    decreases items.len(),
{
    if items.len() == 0 {
        Ok(Seq::empty())
    } else {
        match each(items.drop_last(), decode) {
            Ok(front) => match decode(items.last()) {
                Ok(value) => Ok(front.push(value)),
                Err(failure) => Err(failure),
            },
            Err(failure) => Err(failure),
        }
    }
}

/// A failure among the first `n` elements is the failure of them all.
pub proof fn lemma_each_fails<T, E>(
    items: Seq<JsonData>,
    decode: spec_fn(JsonData) -> Result<T, E>,
    n: int,
)
    requires
        0 <= n <= items.len(),
        each(items.take(n), decode) is Err,
    ensures
        each(items, decode) == each(items.take(n), decode),
    decreases items.len() - n,
{
    if n < items.len() {
        assert(items.take(n + 1).drop_last() =~= items.take(n));
        lemma_each_fails(items, decode, n + 1);
    } else {
        assert(items.take(n) =~= items);
    }
}

/// The text of an optional string.
pub open spec fn text_view(text: Option<String>) -> Option<Seq<char>> {
    match text {
        Some(s) => Some(s@),
        None => None,
    }
}

/// The content of an optional number.
pub open spec fn number_view(number: Option<serde_json::Number>) -> Option<JsonNumber> {
    match number {
        Some(n) => Some(number_data(n)),
        None => None,
    }
}

/// What a `serde_json::Value` holds.
pub uninterp spec fn json_data(v: serde_json::Value) -> JsonData;

/// What a `serde_json::Number` holds.
pub uninterp spec fn number_data(n: serde_json::Number) -> JsonNumber;

/// The decimal text that `serde_json` prints for a number.
pub uninterp spec fn number_text(n: JsonNumber) -> Seq<char>;

/// The tree that `serde_json` reads from a text, and `None` where the text
/// is no JSON document.
pub uninterp spec fn json_parsed(text: Seq<u8>) -> Option<JsonData>;

/// The contents of a sequence of values.
pub open spec fn items_data(items: Seq<serde_json::Value>) -> Seq<JsonData> {
    items.map_values(|v: serde_json::Value| json_data(v))
}

/// `Value::as_str` gives the text of a string value and `None` for any other
/// kind of value.
pub assume_specification[ serde_json::Value::as_str ](v: &serde_json::Value) -> (res: Option<&str>)
    ensures
        match json_data(*v).as_text() {
            Some(s) => res matches Some(r) && r@ == s,
            None => res is None,
        },
;

/// `Value::as_array` gives the elements of an array, in their order, and
/// `None` for any other kind of value.
pub assume_specification[ serde_json::Value::as_array ](v: &serde_json::Value) -> (res: Option<
    &Vec<serde_json::Value>,
>)
    ensures
        match json_data(*v).as_items() {
            Some(items) => res matches Some(a) && items_data(a@) == items,
            None => res is None,
        },
;

/// `Value::as_bool` gives the truth value of a boolean and `None` for any
/// other kind of value.
pub assume_specification[ serde_json::Value::as_bool ](v: &serde_json::Value) -> (res: Option<bool>)
    ensures
        res == json_data(*v).as_bool(),
;

/// `Value::as_u64` gives a number that was written as a non-negative integer
/// and fits 64 bits, and `None` for a negative or fractional number and for
/// any other kind of value.
pub assume_specification[ serde_json::Value::as_u64 ](v: &serde_json::Value) -> (res: Option<u64>)
    ensures
        res == json_data(*v).as_u64(),
;

/// `Value::as_i64` gives a number that was written as an integer and fits a
/// signed 64 bits, and `None` for a larger or fractional number and for any
/// other kind of value.
pub assume_specification[ serde_json::Value::as_i64 ](v: &serde_json::Value) -> (res: Option<i64>)
    ensures
        res == json_data(*v).as_i64(),
;

/// `Value::as_number` gives the number of a number value and `None` for any
/// other kind of value.
pub assume_specification[ serde_json::Value::as_number ](v: &serde_json::Value) -> (res: Option<
    &serde_json::Number,
>)
    ensures
        match json_data(*v).as_number() {
            Some(n) => res matches Some(r) && number_data(*r) == n,
            None => res is None,
        },
;

/// `Value::get` with a string index gives the member of an object under that
/// key, and `None` where the object has no such member or the value is no
/// object.
#[verifier::external_body]
pub(crate) fn member<'a>(v: &'a serde_json::Value, key: &str) -> (res: Option<&'a serde_json::Value>)
    ensures
        match json_data(*v).field(key@) {
            Some(d) => res matches Some(r) && json_data(*r) == d,
            None => res is None,
        },
{
    v.get(key)
}

/// `Clone` for `Value` gives a value with the same content.
pub assume_specification[ <serde_json::Value as Clone>::clone ](v: &serde_json::Value) -> (res:
    serde_json::Value)
    ensures
        json_data(res) == json_data(*v),
;

/// `Clone` for `Number` gives a number with the same content.
pub assume_specification[ <serde_json::Number as Clone>::clone ](n: &serde_json::Number) -> (res:
    serde_json::Number)
    ensures
        number_data(res) == number_data(*n),
;

/// `Display` for `Number` prints the number's decimal text.
#[verifier::external_body]
pub(crate) fn print_number(n: &serde_json::Number) -> (res: String)
    ensures
        res@ == number_text(number_data(*n)),
{
    n.to_string()
}

/// `serde_json::from_slice` reads one JSON document from a text: the tree on
/// success, the parser's error where the text is no JSON document.
#[verifier::external_body]
pub(crate) fn read_json(text: &[u8]) -> (res: Result<serde_json::Value, serde_json::Error>)
    ensures
        match res {
            Ok(v) => json_parsed(text@) == Some(json_data(v)),
            Err(_) => json_parsed(text@) is None,
        },
{
    serde_json::from_slice::<serde_json::Value>(text)
}

/// `Value::is_null` tells whether a value is null.
pub assume_specification[ serde_json::Value::is_null ](v: &serde_json::Value) -> (res: bool)
    ensures
        res == (json_data(*v) is Null),
;

/// Whether a text is the given one.
pub fn is_text(text: &str, given: &str) -> (res: bool)
    ensures
        res == (text@ == given@),
{
    text.to_owned() == given.to_owned()
}

/// The member under `key`, where it is a string.
pub fn text_member(record: &serde_json::Value, key: &str) -> (res: Option<String>)
    ensures
        text_view(res) == json_data(*record).text_field(key@),
{
    match member(record, key) {
        Some(value) => match value.as_str() {
            Some(text) => Some(text.to_owned()),
            None => None,
        },
        None => None,
    }
}

/// The member under `key`, where it is a number.
pub fn number_member(record: &serde_json::Value, key: &str) -> (res: Option<serde_json::Number>)
    ensures
        number_view(res) == json_data(*record).number_field(key@),
{
    match member(record, key) {
        Some(value) => match value.as_number() {
            Some(number) => Some(number.clone()),
            None => None,
        },
        None => None,
    }
}

/// The member under `key`, where it is a boolean.
pub fn bool_member(record: &serde_json::Value, key: &str) -> (res: Option<bool>)
    ensures
        res == json_data(*record).bool_field(key@),
{
    match member(record, key) {
        Some(value) => value.as_bool(),
        None => None,
    }
}

/// A value as an unsigned 32-bit integer, where it is one.
pub fn value_u32(value: &serde_json::Value) -> (res: Option<u32>)
    ensures
        res == json_data(*value).as_u32(),
{
    match value.as_u64() {
        Some(n) => if n <= 0xffff_ffff {
            Some(n as u32)
        } else {
            None
        },
        None => None,
    }
}

/// The member under `key`, where it is an unsigned 32-bit integer.
pub fn u32_member(record: &serde_json::Value, key: &str) -> (res: Option<u32>)
    ensures
        res == json_data(*record).u32_field(key@),
{
    match member(record, key) {
        Some(value) => value_u32(value),
        None => None,
    }
}

/// The member under `key` that a record may leave out or set to null, where
/// it is a string if it is there.
pub fn optional_text_member(record: &serde_json::Value, key: &str) -> (res: Option<Option<String>>)
    ensures
        match json_data(*record).optional_text_field(key@) {
            Some(text) => res matches Some(found) && text_view(found) == text,
            None => res is None,
        },
{
    match member(record, key) {
        None => Some(None),
        Some(value) => {
            if value.is_null() {
                Some(None)
            } else {
                match value.as_str() {
                    Some(text) => Some(Some(text.to_owned())),
                    None => None,
                }
            }
        },
    }
}

/// The member under `key` that a record may leave out or set to null, where
/// it is an unsigned 32-bit integer if it is there.
pub fn optional_u32_member(record: &serde_json::Value, key: &str) -> (res: Option<Option<u32>>)
    ensures
        res == json_data(*record).optional_u32_field(key@),
{
    match member(record, key) {
        None => Some(None),
        Some(value) => {
            if value.is_null() {
                Some(None)
            } else {
                match value_u32(value) {
                    Some(n) => Some(Some(n)),
                    None => None,
                }
            }
        },
    }
}

} // verus!
