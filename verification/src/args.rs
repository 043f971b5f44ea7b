//! The argument payload of a tool call: a JSON value held as plain data.

use vstd::prelude::*;
use crate::error::{ToolError, ToolErrorView};
use crate::text::{chars_of, extend_str, joined3, str_eq, string_of};

verus! {

/// A JSON value. A number is an unsigned integer, a negative integer, or
/// else the text that JSON writes for it.
#[derive(Debug)]
pub enum ArgValue {
    Null,
    Bool(bool),
    UInt(u64),
    Int(i64),
    Float(String),
    Str(String),
    List(Vec<ArgValue>),
    Object(Vec<(String, ArgValue)>),
}

/// The value of the first entry of `entries` whose key is `key`.
pub open spec fn first_with_key(entries: Seq<(String, ArgValue)>, key: Seq<char>) -> Option<
    ArgValue,
>
    decreases entries.len(),
{
    if entries.len() == 0 {
        None
    } else if entries[0].0@ == key {
        Some(entries[0].1)
    } else {
        first_with_key(entries.drop_first(), key)
    }
}

impl ArgValue {
    /// The field `key` of an object; nothing for a value that is no object
    /// or has no such field.
    pub open spec fn lookup(self, key: Seq<char>) -> Option<ArgValue> {
        match self {
            ArgValue::Object(entries) => first_with_key(entries@, key),
            _ => None,
        }
    }

    /// The field `key` where it is a string.
    pub open spec fn str_field(self, key: Seq<char>) -> Option<Seq<char>> {
        match self.lookup(key) {
            Some(ArgValue::Str(s)) => Some(s@),
            _ => None,
        }
    }

    /// Whether the object has a field `key`.
    pub open spec fn has_field(self, key: Seq<char>) -> bool {
        self.lookup(key) is Some
    }

    /// Whether the value is an object.
    pub fn is_object(&self) -> (r: bool)
        ensures
            r == (self is Object),
    {
        match self {
            ArgValue::Object(_) => true,
            _ => false,
        }
    }

    /// The field `key` of an object.
    #[verifier::loop_isolation(false)]
    pub fn get(&self, key: &str) -> (r: Option<&ArgValue>)
        ensures
            match r {
                Some(v) => self.lookup(key@) == Some(*v),
                None => self.lookup(key@) is None,
            },
    {
        match self {
            ArgValue::Object(entries) => {
                let mut i: usize = 0;
                assert(entries@.subrange(0, entries@.len() as int) == entries@);
                while i < entries.len()
                    invariant
                        i <= entries@.len(),
                        first_with_key(entries@, key@) == first_with_key(
                            entries@.subrange(i as int, entries@.len() as int),
                            key@,
                        ),
                    decreases entries@.len() - i,
                {
                    let ghost rest = entries@.subrange(i as int, entries@.len() as int);
                    assert(rest.drop_first() == entries@.subrange(i + 1, entries@.len() as int));
                    if str_eq(entries[i].0.as_str(), key) {
                        assert(rest[0] == entries@[i as int]);
                        return Some(&entries[i].1);
                    }
                    i += 1;
                }
                None
            },
            _ => None,
        }
    }

    /// The field `key` where it is a string.
    pub fn get_str(&self, key: &str) -> (r: Option<&String>)
        ensures
            match r {
                Some(s) => self.str_field(key@) == Some(s@),
                None => self.str_field(key@) is None,
            },
    {
        match self.get(key) {
            Some(ArgValue::Str(s)) => Some(s),
            _ => None,
        }
    }

}

// ---------------------------------------------------------------------------
// Typed fields
// ---------------------------------------------------------------------------

/// The text of the error for a required field that is missing.
pub open spec fn missing_field_text(key: Seq<char>) -> Seq<char> {
    "missing field `"@ + key + "`"@
}

/// The text of the error for a field of the wrong type.
pub open spec fn wrong_type_text(key: Seq<char>, expected: Seq<char>) -> Seq<char> {
    "invalid type for field `"@ + key + "`: expected "@ + expected
}

/// The text of the error for a payload that is no object.
pub open spec fn not_an_object_text() -> Seq<char> {
    "invalid type: expected an object of named arguments"@
}

/// The error for a payload that lacks the field `key`.
pub fn missing_field(key: &str) -> (e: ToolError)
    ensures
        e@ == ToolErrorView::InvalidArguments(missing_field_text(key@)),
{
    ToolError::InvalidArguments(joined3("missing field `", key, "`"))
}

/// The error for a payload whose field `key` is not of the kind `expected`.
pub fn wrong_type(key: &str, expected: &str) -> (e: ToolError)
    ensures
        e@ == ToolErrorView::InvalidArguments(wrong_type_text(key@, expected@)),
{
    let mut v = chars_of("invalid type for field `");
    extend_str(&mut v, key);
    extend_str(&mut v, "`: expected ");
    extend_str(&mut v, expected);
    ToolError::InvalidArguments(string_of(&v))
}

/// The error for a payload that is no object.
pub fn not_an_object() -> (e: ToolError)
    ensures
        e@ == ToolErrorView::InvalidArguments(not_an_object_text()),
{
    ToolError::InvalidArguments("invalid type: expected an object of named arguments".to_owned())
}

/// What a required string field gives: the string, or the error for a
/// field that is missing or is no string.
pub open spec fn required_str_spec(args: ArgValue, key: Seq<char>) -> Result<
    Seq<char>,
    ToolErrorView,
> {
    match args.lookup(key) {
        Some(ArgValue::Str(s)) => Ok(s@),
        Some(_) => Err(ToolErrorView::InvalidArguments(wrong_type_text(key, "a string"@))),
        None => Err(ToolErrorView::InvalidArguments(missing_field_text(key))),
    }
}

/// What an optional string field gives: nothing for a field that is
/// missing or null.
pub open spec fn optional_str_spec(args: ArgValue, key: Seq<char>) -> Result<
    Option<Seq<char>>,
    ToolErrorView,
> {
    match args.lookup(key) {
        Some(ArgValue::Str(s)) => Ok(Some(s@)),
        Some(ArgValue::Null) | None => Ok(None),
        Some(_) => Err(ToolErrorView::InvalidArguments(wrong_type_text(key, "a string"@))),
    }
}

/// What an optional boolean field gives.
pub open spec fn optional_bool_spec(args: ArgValue, key: Seq<char>) -> Result<
    Option<bool>,
    ToolErrorView,
> {
    match args.lookup(key) {
        Some(ArgValue::Bool(b)) => Ok(Some(b)),
        Some(ArgValue::Null) | None => Ok(None),
        Some(_) => Err(ToolErrorView::InvalidArguments(wrong_type_text(key, "a boolean"@))),
    }
}

/// What an optional field gives that holds an unsigned integer of at most
/// `max`.
pub open spec fn optional_uint_spec(args: ArgValue, key: Seq<char>, max: u64) -> Result<
    Option<u64>,
    ToolErrorView,
> {
    match args.lookup(key) {
        Some(ArgValue::UInt(n)) => if n <= max {
            Ok(Some(n))
        } else {
            Err(
                ToolErrorView::InvalidArguments(
                    wrong_type_text(key, "an unsigned integer in range"@),
                ),
            )
        },
        Some(ArgValue::Null) | None => Ok(None),
        Some(_) => Err(
            ToolErrorView::InvalidArguments(wrong_type_text(key, "an unsigned integer in range"@)),
        ),
    }
}

/// What a required field gives that holds an unsigned integer of at most
/// `max`.
pub open spec fn required_uint_spec(args: ArgValue, key: Seq<char>, max: u64) -> Result<
    u64,
    ToolErrorView,
> {
    match args.lookup(key) {
        Some(ArgValue::UInt(n)) => if n <= max {
            Ok(n)
        } else {
            Err(
                ToolErrorView::InvalidArguments(
                    wrong_type_text(key, "an unsigned integer in range"@),
                ),
            )
        },
        None => Err(ToolErrorView::InvalidArguments(missing_field_text(key))),
        Some(_) => Err(
            ToolErrorView::InvalidArguments(wrong_type_text(key, "an unsigned integer in range"@)),
        ),
    }
}

/// Whether every value of `items` is a string.
pub open spec fn all_strings(items: Seq<ArgValue>) -> bool {
    forall|i: int| 0 <= i < items.len() ==> #[trigger] items[i] is Str
}

/// The strings of a list of string values.
pub open spec fn strings_of(items: Seq<ArgValue>) -> Seq<Seq<char>> {
    Seq::new(items.len(), |i: int| items[i]->Str_0@)
}

/// What an optional field gives that holds a list of strings.
pub open spec fn optional_str_list_spec(args: ArgValue, key: Seq<char>) -> Result<
    Option<Seq<Seq<char>>>,
    ToolErrorView,
> {
    match args.lookup(key) {
        Some(ArgValue::List(items)) => if all_strings(items@) {
            Ok(Some(strings_of(items@)))
        } else {
            Err(ToolErrorView::InvalidArguments(wrong_type_text(key, "a list of strings"@)))
        },
        Some(ArgValue::Null) | None => Ok(None),
        Some(_) => Err(ToolErrorView::InvalidArguments(wrong_type_text(key, "a list of strings"@))),
    }
}

/// The view of a result that holds a string.
pub open spec fn str_result(r: Result<String, ToolError>) -> Result<Seq<char>, ToolErrorView> {
    match r {
        Ok(s) => Ok(s@),
        Err(e) => Err(e@),
    }
}

/// The view of a result that may hold a string.
pub open spec fn opt_str_result(r: Result<Option<String>, ToolError>) -> Result<
    Option<Seq<char>>,
    ToolErrorView,
> {
    match r {
        Ok(Some(s)) => Ok(Some(s@)),
        Ok(None) => Ok(None),
        Err(e) => Err(e@),
    }
}

/// The view of a result that holds a plain value.
pub open spec fn plain_result<T>(r: Result<T, ToolError>) -> Result<T, ToolErrorView> {
    match r {
        Ok(v) => Ok(v),
        Err(e) => Err(e@),
    }
}

/// The view of a result that may hold a list of strings.
pub open spec fn opt_list_result(r: Result<Option<Vec<String>>, ToolError>) -> Result<
    Option<Seq<Seq<char>>>,
    ToolErrorView,
> {
    match r {
        Ok(Some(v)) => Ok(Some(crate::text::views(v@))),
        Ok(None) => Ok(None),
        Err(e) => Err(e@),
    }
}

/// The string that the field `key` must hold.
pub fn required_str(args: &ArgValue, key: &str) -> (r: Result<String, ToolError>)
    ensures
        str_result(r) == required_str_spec(*args, key@),
{
    match args.get(key) {
        Some(ArgValue::Str(s)) => Ok(s.clone()),
        Some(_) => Err(wrong_type(key, "a string")),
        None => Err(missing_field(key)),
    }
}

/// The string that the field `key` may hold.
pub fn optional_str(args: &ArgValue, key: &str) -> (r: Result<Option<String>, ToolError>)
    ensures
        opt_str_result(r) == optional_str_spec(*args, key@),
{
    match args.get(key) {
        Some(ArgValue::Str(s)) => Ok(Some(s.clone())),
        Some(ArgValue::Null) => Ok(None),
        None => Ok(None),
        Some(_) => Err(wrong_type(key, "a string")),
    }
}

/// The boolean that the field `key` may hold.
pub fn optional_bool(args: &ArgValue, key: &str) -> (r: Result<Option<bool>, ToolError>)
    ensures
        plain_result(r) == optional_bool_spec(*args, key@),
{
    match args.get(key) {
        Some(ArgValue::Bool(b)) => Ok(Some(*b)),
        Some(ArgValue::Null) => Ok(None),
        None => Ok(None),
        Some(_) => Err(wrong_type(key, "a boolean")),
    }
}

/// The unsigned integer of at most `max` that the field `key` may hold.
pub fn optional_uint(args: &ArgValue, key: &str, max: u64) -> (r: Result<Option<u64>, ToolError>)
    ensures
        plain_result(r) == optional_uint_spec(*args, key@, max),
{
    match args.get(key) {
        Some(ArgValue::UInt(n)) => {
            if *n <= max {
                Ok(Some(*n))
            } else {
                Err(wrong_type(key, "an unsigned integer in range"))
            }
        },
        Some(ArgValue::Null) => Ok(None),
        None => Ok(None),
        Some(_) => Err(wrong_type(key, "an unsigned integer in range")),
    }
}

/// The unsigned integer of at most `max` that the field `key` must hold.
pub fn required_uint(args: &ArgValue, key: &str, max: u64) -> (r: Result<u64, ToolError>)
    ensures
        plain_result(r) == required_uint_spec(*args, key@, max),
{
    match args.get(key) {
        Some(ArgValue::UInt(n)) => {
            if *n <= max {
                Ok(*n)
            } else {
                Err(wrong_type(key, "an unsigned integer in range"))
            }
        },
        None => Err(missing_field(key)),
        Some(_) => Err(wrong_type(key, "an unsigned integer in range")),
    }
}

/// The list of strings that the field `key` may hold.
#[verifier::loop_isolation(false)]
pub fn optional_str_list(args: &ArgValue, key: &str) -> (r: Result<Option<Vec<String>>, ToolError>)
    ensures
        opt_list_result(r) == optional_str_list_spec(*args, key@),
{
    match args.get(key) {
        Some(ArgValue::List(items)) => {
            let mut out: Vec<String> = Vec::new();
            let mut i: usize = 0;
            while i < items.len()
                invariant
                    i <= items@.len(),
                    out@.len() == i,
                    forall|j: int| 0 <= j < i ==> #[trigger] items@[j] is Str,
                    forall|j: int| 0 <= j < i ==> (#[trigger] out@[j])@ == items@[j]->Str_0@,
                decreases items@.len() - i,
            {
                match &items[i] {
                    ArgValue::Str(s) => {
                        out.push(s.clone());
                    },
                    _ => {
                        assert(!(items@[i as int] is Str));
                        assert(!all_strings(items@));
                        return Err(wrong_type(key, "a list of strings"));
                    },
                }
                i += 1;
            }
            assert(crate::text::views(out@) =~= strings_of(items@));
            Ok(Some(out))
        },
        Some(ArgValue::Null) => Ok(None),
        None => Ok(None),
        Some(_) => Err(wrong_type(key, "a list of strings")),
    }
}

// ---------------------------------------------------------------------------
// JSON text
// ---------------------------------------------------------------------------

/// `serde_json::Value`: a JSON value as that crate holds it. It is only
/// handed from the conversion to the two functions that write it.
#[verifier::external_type_specification]
#[verifier::external_body]
pub struct ExJsonValue(serde_json::Value);

/// The text that `serde_json::to_string` writes for a value: JSON on one
/// line, without spaces.
pub uninterp spec fn compact_json_of(v: ArgValue) -> Seq<char>;

/// The text that `serde_json::to_string_pretty` writes for a value: JSON
/// over several lines, two spaces further in at each level.
pub uninterp spec fn pretty_json_of(v: ArgValue) -> Seq<char>;

/// The value as `serde_json` holds it, variant for variant: a number goes
/// through `serde_json::Value::from`, the text of a number with a fraction
/// or an exponent through `serde_json::from_str`, the fields of an object
/// into the crate's map, which keeps one value for a key and the keys in
/// order. Nothing is claimed of the result.
#[verifier::external_body]
fn to_json(v: &ArgValue) -> serde_json::Value {
    match v {
        ArgValue::Null => serde_json::Value::Null,
        ArgValue::Bool(b) => serde_json::Value::Bool(*b),
        ArgValue::UInt(n) => serde_json::Value::from(*n),
        ArgValue::Int(i) => serde_json::Value::from(*i),
        ArgValue::Float(t) => serde_json::from_str(t).unwrap_or(serde_json::Value::Null),
        ArgValue::Str(s) => serde_json::Value::String(s.clone()),
        ArgValue::List(items) => serde_json::Value::Array(items.iter().map(to_json).collect()),
        ArgValue::Object(entries) => serde_json::Value::Object(
            entries.iter().map(|e| (e.0.clone(), to_json(&e.1))).collect(),
        ),
    }
}

/// `serde_json::to_string` on the value. The result is named by
/// [`compact_json_of`]; nothing else is claimed of it.
#[verifier::external_body]
fn compact_json(v: &ArgValue) -> (r: String)
    ensures
        r@ == compact_json_of(*v),
{
    serde_json::to_string(&to_json(v)).unwrap_or_default()
}

/// `serde_json::to_string_pretty` on the value. The result is named by
/// [`pretty_json_of`]; nothing else is claimed of it.
#[verifier::external_body]
fn pretty_json(v: &ArgValue) -> (r: String)
    ensures
        r@ == pretty_json_of(*v),
{
    serde_json::to_string_pretty(&to_json(v)).unwrap_or_default()
}

impl ArgValue {
    /// The JSON text of the value on one line.
    pub fn to_compact(&self) -> (r: String)
        ensures
            r@ == compact_json_of(*self),
    {
        compact_json(self)
    }

    /// The JSON text of the value over several lines.
    pub fn to_pretty(&self) -> (r: String)
        ensures
            r@ == pretty_json_of(*self),
    {
        pretty_json(self)
    }
}

} // verus!
