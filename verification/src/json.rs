//! JSON documents, as `serde_json` reads and writes them.
//!
//! A `serde_json::Value` is opaque here. [`json_tree`] names what it holds, and each call into
//! `serde_json` that the crate makes is described below by what it does to that tree.

use vstd::prelude::*;
use crate::double::{is_short_decimal, Double};
use crate::nearest::{is_nearest_double, law_one_double_is_nearest, nearest_double};

verus! {

/// A JSON number: an integer where the text was one and it fits, else the bits of a double.
pub enum JsonNumber {
    Unsigned(u64),
    Negative(i64),
    Float(u64),
}

/// What a JSON document holds.
#[verifier::ext_equal]
pub enum JsonTree {
    Null,
    Bool(bool),
    Number(JsonNumber),
    Text(Seq<char>),
    Array(Seq<JsonTree>),
    Object(Map<Seq<char>, JsonTree>),
}

#[verifier::external_type_specification]
#[verifier::external_body]
pub struct ExValue(serde_json::Value);

/// What a `serde_json::Value` holds.
pub uninterp spec fn json_tree(v: serde_json::Value) -> JsonTree;

/// What `serde_json::from_slice` makes of `bytes`: the document, or the text of its error.
pub uninterp spec fn json_parsed(bytes: Seq<u8>) -> Result<JsonTree, Seq<char>>;

/// What `serde_json::to_vec` writes for a document.
pub uninterp spec fn json_text(t: JsonTree) -> Seq<u8>;

/// The bits of the double that `serde_json` reads where it wrote the finite double with these
/// bits, or nothing where it refuses its own text as out of range. Without its feature
/// `float_roundtrip` it reads long decimal numbers with limited precision, so that the bits can
/// differ in the last place.
pub uninterp spec fn double_reread(bits: u64) -> Option<u64>;

/// The bits of a double that was written and read again: the same for a short decimal number,
/// and as good as can be for any other.
pub open spec fn read_again(bits: u64, best_effort: Option<u64>) -> Option<u64> {
    if is_short_decimal(Double { bits }) {
        Some(bits)
    } else {
        best_effort
    }
}

/// The value of a JSON number, as the bits of a double: for an integer the nearest one.
pub open spec fn number_as_double(n: JsonNumber) -> u64 {
    match n {
        JsonNumber::Unsigned(u) => nearest_double(u as int),
        JsonNumber::Negative(i) => nearest_double(i as int),
        JsonNumber::Float(bits) => bits,
    }
}

/// `d` is the double that a JSON number stands for.
pub open spec fn stands_for(n: JsonNumber, d: Double) -> bool {
    match n {
        JsonNumber::Unsigned(u) => is_nearest_double(d, u as int),
        JsonNumber::Negative(i) => is_nearest_double(d, i as int),
        JsonNumber::Float(bits) => d.bits == bits,
    }
}

/// A JSON number stands for one double and no other.
pub proof fn law_number_stands_for_one_double(n: JsonNumber)
    ensures
        stands_for(n, Double { bits: number_as_double(n) }),
        forall|d: Double| #[trigger] stands_for(n, d) ==> d.bits == number_as_double(n),
{
    match n {
        JsonNumber::Unsigned(u) => law_one_double_is_nearest(u as int),
        JsonNumber::Negative(i) => law_one_double_is_nearest(i as int),
        JsonNumber::Float(_) => {},
    }
}

impl JsonTree {
    /// The entries of an object; anything else has none.
    pub open spec fn entries(self) -> Map<Seq<char>, JsonTree> {
        match self {
            JsonTree::Object(m) => m,
            _ => Map::empty(),
        }
    }

    /// The entry `key` of an object, and null where there is none.
    pub open spec fn entry(self, key: Seq<char>) -> JsonTree {
        if self.entries().contains_key(key) {
            self.entries()[key]
        } else {
            JsonTree::Null
        }
    }

    pub open spec fn as_text(self) -> Option<Seq<char>> {
        match self {
            JsonTree::Text(s) => Some(s),
            _ => None,
        }
    }

    pub open spec fn as_flag(self) -> Option<bool> {
        match self {
            JsonTree::Bool(b) => Some(b),
            _ => None,
        }
    }

    /// The bits of the double that a number stands for.
    pub open spec fn as_double(self) -> Option<u64> {
        match self {
            JsonTree::Number(n) => Some(number_as_double(n)),
            _ => None,
        }
    }

    pub open spec fn as_unsigned(self) -> Option<u64> {
        match self {
            JsonTree::Number(JsonNumber::Unsigned(n)) => Some(n),
            _ => None,
        }
    }

    pub open spec fn as_signed(self) -> Option<i64> {
        match self {
            JsonTree::Number(JsonNumber::Unsigned(n)) => if n <= i64::MAX {
                Some(n as i64)
            } else {
                None
            },
            JsonTree::Number(JsonNumber::Negative(n)) => Some(n),
            _ => None,
        }
    }

    /// Neither an array nor an object.
    pub open spec fn is_scalar(self) -> bool {
        !(self is Array) && !(self is Object)
    }

    /// An object of scalars, or a scalar.
    pub open spec fn is_record(self) -> bool {
        match self {
            JsonTree::Array(_) => false,
            JsonTree::Object(m) => forall|k: Seq<char>| #[trigger]
                m.contains_key(k) ==> m[k].is_scalar(),
            _ => true,
        }
    }

    /// An object of records.
    pub open spec fn is_document(self) -> bool {
        &&& self is Object
        &&& forall|k: Seq<char>| #[trigger]
            self.entries().contains_key(k) ==> self.entries()[k].is_record()
    }

    /// A double in it is one that `reread` gives a value for.
    pub open spec fn scalar_rereads(self, reread: spec_fn(u64) -> Option<u64>) -> bool {
        match self {
            JsonTree::Number(JsonNumber::Float(bits)) => reread(bits) is Some,
            _ => true,
        }
    }

    pub open spec fn record_rereads(self, reread: spec_fn(u64) -> Option<u64>) -> bool {
        match self {
            JsonTree::Object(m) => forall|k: Seq<char>| #[trigger]
                m.contains_key(k) ==> m[k].scalar_rereads(reread),
            _ => self.scalar_rereads(reread),
        }
    }

    /// Every double in a document is one that `reread` gives a value for.
    pub open spec fn document_rereads(self, reread: spec_fn(u64) -> Option<u64>) -> bool {
        forall|k: Seq<char>| #[trigger]
            self.entries().contains_key(k) ==> self.entries()[k].record_rereads(reread)
    }

    pub open spec fn scalar_reread(self, reread: spec_fn(u64) -> Option<u64>) -> JsonTree {
        match self {
            JsonTree::Number(JsonNumber::Float(bits)) => JsonTree::Number(
                JsonNumber::Float(reread(bits).unwrap()),
            ),
            _ => self,
        }
    }

    pub open spec fn record_reread(self, reread: spec_fn(u64) -> Option<u64>) -> JsonTree {
        match self {
            JsonTree::Object(m) => JsonTree::Object(
                m.map_values(|t: JsonTree| t.scalar_reread(reread)),
            ),
            _ => self.scalar_reread(reread),
        }
    }

    /// The document with every double in it replaced by what `reread` gives for it.
    pub open spec fn document_reread(self, reread: spec_fn(u64) -> Option<u64>) -> JsonTree {
        JsonTree::Object(self.entries().map_values(|t: JsonTree| t.record_reread(reread)))
    }
}

/// `serde_json::Value::as_str` gives the characters of a string, and of nothing else.
pub assume_specification [serde_json::Value::as_str](v: &serde_json::Value) -> (r: Option<&str>)
    ensures
        match json_tree(*v).as_text() {
            Some(s) => r is Some && r->0@ == s,
            None => r is None,
        },
;

/// `serde_json::Value::as_bool` gives the value of a Boolean, and of nothing else.
pub assume_specification [serde_json::Value::as_bool](v: &serde_json::Value) -> (r: Option<bool>)
    ensures
        r == json_tree(*v).as_flag(),
;

/// `serde_json::Value::as_u64` gives the value of an integer that is not negative.
pub assume_specification [serde_json::Value::as_u64](v: &serde_json::Value) -> (r: Option<u64>)
    ensures
        r == json_tree(*v).as_unsigned(),
;

/// `serde_json::Value::as_i64` gives the value of an integer that fits.
pub assume_specification [serde_json::Value::as_i64](v: &serde_json::Value) -> (r: Option<i64>)
    ensures
        r == json_tree(*v).as_signed(),
;

/// `serde_json::Value::clone` gives a value that holds the same.
pub assume_specification [<serde_json::Value as Clone>::clone](v: &serde_json::Value) -> (r:
    serde_json::Value)
    ensures
        json_tree(r) == json_tree(*v),
;

/// `serde_json::from_slice` reads one JSON document that takes up all of `bytes`. The document
/// and the text of the error depend on the bytes alone; which bytes are JSON is left unsaid.
#[verifier::external_body]
pub(crate) fn parse(bytes: &[u8]) -> (r: Result<serde_json::Value, String>)
    ensures
        match json_parsed(bytes@) {
            Ok(t) => r is Ok && json_tree(r->Ok_0) == t,
            Err(text) => r is Err && r->Err_0@ == text,
        },
{
    serde_json::from_slice::<serde_json::Value>(bytes).map_err(|e| e.to_string())
}

/// `serde_json::to_vec` writes a document, and succeeds on one that nests no deeper than two
/// objects. Reading what it wrote gives the document back, but for some doubles, and fails only
/// where one of those is refused as out of range.
///
/// A double is written as the shortest decimal number that stands for it. It is read as an
/// integer that is divided by, or multiplied with, a power of ten. Up to fifteen digits and a
/// power of 22 both are exact doubles, so that the division rounds to the double that was
/// written. Any other double comes back as [`double_reread`] names, where it is read at all; how
/// near that is to the double that was written is left unsaid.
#[verifier::external_body]
pub(crate) fn write_document(v: &serde_json::Value) -> (r: Option<Vec<u8>>)
    requires
        json_tree(*v).is_document(),
    ensures
        r is Some,
        r->0@ == json_text(json_tree(*v)),
        json_parsed(r->0@) is Ok <==> json_tree(*v).document_rereads(
            |bits: u64| read_again(bits, double_reread(bits)),
        ),
        json_parsed(r->0@) is Ok ==> json_parsed(r->0@)->Ok_0 == json_tree(*v).document_reread(
            |bits: u64| read_again(bits, double_reread(bits)),
        ),
{
    serde_json::to_vec(v).ok()
}

/// `serde_json::Value::get` finds the entry of an object under a key.
#[verifier::external_body]
pub(crate) fn get<'a>(v: &'a serde_json::Value, key: &str) -> (r: Option<&'a serde_json::Value>)
    ensures
        r is Some <==> json_tree(*v).entries().contains_key(key@),
        r matches Some(w) ==> json_tree(*w) == json_tree(*v).entry(key@),
{
    v.get(key)
}

/// Indexing a `serde_json::Value` by a key gives the entry, and null where there is none.
#[verifier::external_body]
pub(crate) fn index<'a>(v: &'a serde_json::Value, key: &str) -> (r: &'a serde_json::Value)
    ensures
        json_tree(*r) == json_tree(*v).entry(key@),
{
    &v[key]
}

/// Assigning to a `serde_json::Value` indexed by a key sets the entry. Null counts as an object
/// without entries; on anything else that is no object the assignment panics.
#[verifier::external_body]
pub(crate) fn set_entry(v: &mut serde_json::Value, key: &str, x: serde_json::Value)
    requires
        json_tree(*old(v)) is Object || json_tree(*old(v)) is Null,
    ensures
        json_tree(*final(v)) == JsonTree::Object(
            json_tree(*old(v)).entries().insert(key@, json_tree(x)),
        ),
{
    v[key] = x;
}

/// `serde_json::Value::Null`, the value without content.
#[verifier::external_body]
pub(crate) fn null() -> (v: serde_json::Value)
    ensures
        json_tree(v) == JsonTree::Null,
{
    serde_json::Value::Null
}

/// `serde_json::Value::from` a `String` holds its characters.
#[verifier::external_body]
pub(crate) fn text(s: String) -> (v: serde_json::Value)
    ensures
        json_tree(v) == JsonTree::Text(s@),
{
    serde_json::Value::from(s)
}

/// `serde_json::Value::from` a `bool` holds it.
#[verifier::external_body]
pub(crate) fn flag(b: bool) -> (v: serde_json::Value)
    ensures
        json_tree(v) == JsonTree::Bool(b),
{
    serde_json::Value::from(b)
}

/// `serde_json::Value::from` a `u64` holds it as an integer.
#[verifier::external_body]
pub(crate) fn unsigned(n: u64) -> (v: serde_json::Value)
    ensures
        json_tree(v) == JsonTree::Number(JsonNumber::Unsigned(n)),
{
    serde_json::Value::from(n)
}

/// `serde_json::Value::as_f64` gives the double that a number stands for, which for an integer
/// is the nearest one.
#[verifier::external_body]
fn value_as_double(v: &serde_json::Value) -> (r: Option<Double>)
    ensures
        match json_tree(*v) {
            JsonTree::Number(n) => r is Some && stands_for(n, r->0),
            _ => r is None,
        },
{
    v.as_f64().map(|x| Double { bits: x.to_bits() })
}

/// `serde_json::Value::from` the double that a number stands for holds that double: a JSON
/// number is never infinite, so none is lost.
#[verifier::external_body]
fn value_of_double(v: &serde_json::Value) -> (r: Option<serde_json::Value>)
    ensures
        match json_tree(*v) {
            JsonTree::Number(n) => {
                &&& r is Some
                &&& json_tree(r->0) matches JsonTree::Number(JsonNumber::Float(bits))
                    && stands_for(n, Double { bits })
            },
            _ => r is None,
        },
{
    v.as_f64().map(serde_json::Value::from)
}

/// The double that a JSON number stands for.
pub(crate) fn as_double(v: &serde_json::Value) -> (r: Option<Double>)
    ensures
        match json_tree(*v) {
            JsonTree::Number(n) => r == Some(Double { bits: number_as_double(n) }) && stands_for(
                n,
                r->0,
            ),
            _ => r is None,
        },
{
    proof {
        if let JsonTree::Number(n) = json_tree(*v) {
            law_number_stands_for_one_double(n);
        }
    }
    value_as_double(v)
}

/// A JSON number as a double.
pub(crate) fn double(v: &serde_json::Value) -> (r: Option<serde_json::Value>)
    ensures
        match json_tree(*v) {
            JsonTree::Number(n) => {
                &&& r is Some
                &&& json_tree(r->0) == JsonTree::Number(JsonNumber::Float(number_as_double(n)))
                &&& stands_for(n, Double { bits: number_as_double(n) })
            },
            _ => r is None,
        },
{
    proof {
        if let JsonTree::Number(n) = json_tree(*v) {
            law_number_stands_for_one_double(n);
        }
    }
    value_of_double(v)
}

}
