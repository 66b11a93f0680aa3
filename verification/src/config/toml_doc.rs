//! A TOML document as plain values, and the typed reads the configuration
//! schema makes of it: fields by key, integers within a range, strings,
//! booleans and arrays of integers.

use vstd::prelude::*;

verus! {

/// A TOML value of the `toml` crate.
#[verifier::external_type_specification]
#[verifier::external_body]
pub struct ExTomlValue(toml::Value);

/// A TOML value. Numbers with a fraction and date-times are kept only as
/// their kind, which is all the schema needs to reject them.
#[derive(Debug)]
pub enum TomlValue {
    /// A string.
    String(String),
    /// An integer.
    Integer(i64),
    /// A number with a fraction or exponent.
    Fractional,
    /// A boolean.
    Boolean(bool),
    /// A date or time.
    Datetime,
    /// An array.
    Array(Vec<TomlValue>),
    /// A table: its keys with their values.
    Table(Vec<(String, TomlValue)>),
}

/// The document the `toml` crate reads from a text, or `None` when the text
/// is not valid TOML.
pub uninterp spec fn toml_document(text: Seq<char>) -> Option<TomlValue>;

/// Turns a `toml::Value` into a `TomlValue`, variant by variant.
#[verifier::external_body]
fn toml_value_to_doc(v: toml::Value) -> TomlValue {
    match v {
        toml::Value::String(s) => TomlValue::String(s),
        toml::Value::Integer(i) => TomlValue::Integer(i),
        toml::Value::Float(_) => TomlValue::Fractional,
        toml::Value::Boolean(b) => TomlValue::Boolean(b),
        toml::Value::Datetime(_) => TomlValue::Datetime,
        toml::Value::Array(a) => TomlValue::Array(a.into_iter().map(toml_value_to_doc).collect()),
        toml::Value::Table(t) => TomlValue::Table(
            t.into_iter().map(|(k, v)| (k, toml_value_to_doc(v))).collect(),
        ),
    }
}

/// `str::parse::<toml::Table>` of the `toml` crate, its table turned into
/// a `TomlValue`; the document of a text that parses is a table. The error
/// is the crate's parse error, with its line and column.
#[verifier::external_body]
fn parse_toml_table(text: &str) -> (r: std::result::Result<TomlValue, toml::de::Error>)
    ensures
        r matches Ok(v) ==> toml_document(text@) == Some(v) && v is Table,
        r is Err ==> toml_document(text@) is None,
{
    match text.parse::<toml::Table>() {
        Ok(t) => Ok(toml_value_to_doc(toml::Value::Table(t))),
        Err(e) => Err(e),
    }
}

/// Reads a TOML document: its top-level table, or the TOML parser's error
/// when the text is not TOML.
pub fn parse_document(text: &str) -> (r: std::result::Result<TomlValue, toml::de::Error>)
    ensures
        r matches Ok(v) ==> toml_document(text@) == Some(v) && v is Table,
        r is Err ==> toml_document(text@) is None,
{
    parse_toml_table(text)
}

/// The value of the first entry with key `key`.
pub open spec fn entry_lookup(es: Seq<(String, TomlValue)>, key: Seq<char>) -> Option<TomlValue>
    decreases es.len(),
{
    if es.len() == 0 {
        None
    } else if es[0].0@ == key {
        Some(es[0].1)
    } else {
        entry_lookup(es.drop_first(), key)
    }
}

/// An integer in `lo..=hi`, or `None` for anything else.
pub open spec fn int_in(v: TomlValue, lo: int, hi: int) -> Option<int> {
    match v {
        TomlValue::Integer(i) => if lo <= i <= hi {
            Some(i as int)
        } else {
            None
        },
        _ => None,
    }
}

/// A boolean, or `None` for anything else.
pub open spec fn as_bool(v: TomlValue) -> Option<bool> {
    match v {
        TomlValue::Boolean(b) => Some(b),
        _ => None,
    }
}

/// A string, or `None` for anything else.
pub open spec fn as_string(v: TomlValue) -> Option<String> {
    match v {
        TomlValue::String(s) => Some(s),
        _ => None,
    }
}

/// The integers of an array, each in `lo..=hi`; `None` when the value is
/// not an array or an element is not such an integer.
pub open spec fn int_list(v: TomlValue, lo: int, hi: int) -> Option<Seq<int>> {
    match v {
        TomlValue::Array(items) => int_items(items@, lo, hi),
        _ => None,
    }
}

/// The integers of a sequence of values, each in `lo..=hi`.
pub open spec fn int_items(items: Seq<TomlValue>, lo: int, hi: int) -> Option<Seq<int>>
    decreases items.len(),
{
    if items.len() == 0 {
        Some(Seq::<int>::empty())
    } else {
        match (int_items(items.drop_last(), lo, hi), int_in(items.last(), lo, hi)) {
            (Some(rest), Some(x)) => Some(rest.push(x)),
            _ => None,
        }
    }
}

/// A failure in a prefix is a failure of every longer prefix.
pub proof fn lemma_int_items_failure_extends(items: Seq<TomlValue>, k: int, lo: int, hi: int)
    requires
        0 <= k <= items.len(),
        int_items(items.take(k), lo, hi) is None,
    ensures
        int_items(items, lo, hi) is None,
    decreases items.len() - k,
{
    if k < items.len() {
        assert(items.take(k + 1).drop_last() =~= items.take(k));
        lemma_int_items_failure_extends(items, k + 1, lo, hi);
    } else {
        assert(items.take(k) =~= items);
    }
}

/// A successful read of a sequence has one integer per value.
pub proof fn lemma_int_items_len(items: Seq<TomlValue>, lo: int, hi: int)
    requires
        int_items(items, lo, hi) is Some,
    ensures
        int_items(items, lo, hi).unwrap().len() == items.len(),
        forall|i: int|
            0 <= i < items.len() ==> lo <= #[trigger] int_items(items, lo, hi).unwrap()[i] <= hi,
    decreases items.len(),
{
    if items.len() > 0 {
        lemma_int_items_len(items.drop_last(), lo, hi);
    }
}

/// The entry of `key`, in the table `es`.
pub fn lookup<'a>(es: &'a Vec<(String, TomlValue)>, key: &str) -> (r: Option<&'a TomlValue>)
    ensures
        r matches Some(v) ==> entry_lookup(es@, key@) == Some(*v),
        r is None ==> entry_lookup(es@, key@) is None,
{
    let k = key.to_owned();
    let mut i: usize = 0;
    assert(es@.subrange(0, es@.len() as int) =~= es@);
    while i < es.len()
        invariant
            i <= es@.len(),
            k@ == key@,
            entry_lookup(es@, key@) == entry_lookup(es@.subrange(i as int, es@.len() as int), key@),
        decreases es@.len() - i,
    {
        let ghost rest = es@.subrange(i as int, es@.len() as int);
        assert(rest.drop_first() =~= es@.subrange(i + 1, es@.len() as int));
        if es[i].0 == k {
            return Some(&es[i].1);
        }
        i = i + 1;
    }
    None
}

/// Reads an integer in `lo..=hi` (both within `i64`).
pub fn read_int_in(v: &TomlValue, lo: i64, hi: i64) -> (r: Option<i64>)
    ensures
        r matches Some(x) ==> int_in(*v, lo as int, hi as int) == Some(x as int),
        r is None ==> int_in(*v, lo as int, hi as int) is None,
{
    match v {
        TomlValue::Integer(i) => if lo <= *i && *i <= hi {
            Some(*i)
        } else {
            None
        },
        _ => None,
    }
}

/// Reads the integers of an array, each in `lo..=hi`.
pub fn read_int_list(v: &TomlValue, lo: i64, hi: i64) -> (r: Option<Vec<i64>>)
    ensures
        r matches Some(xs) ==> int_list(*v, lo as int, hi as int) == Some(
            xs@.map_values(|x: i64| x as int),
        ),
        r is None ==> int_list(*v, lo as int, hi as int) is None,
{
    match v {
        TomlValue::Array(items) => {
            let mut out: Vec<i64> = Vec::new();
            let mut i: usize = 0;
            while i < items.len()
                invariant
                    i <= items@.len(),
                    int_list(*v, lo as int, hi as int) == int_items(items@, lo as int, hi as int),
                    int_items(items@.take(i as int), lo as int, hi as int) == Some(
                        out@.map_values(|x: i64| x as int),
                    ),
                decreases items@.len() - i,
            {
                assert(items@.take(i + 1).drop_last() =~= items@.take(i as int));
                assert(items@.take(i + 1).last() == items@[i as int]);
                match read_int_in(&items[i], lo, hi) {
                    Some(x) => {
                        out.push(x);
                        assert(out@.map_values(|x: i64| x as int) =~= old_map_push(out@));
                    },
                    None => {
                        proof {
                            assert(int_items(items@.take(i + 1), lo as int, hi as int) is None);
                            lemma_int_items_failure_extends(items@, i + 1, lo as int, hi as int);
                        }
                        return None;
                    },
                }
                i = i + 1;
            }
            assert(items@.take(items@.len() as int) =~= items@);
            Some(out)
        },
        _ => None,
    }
}

/// The values of a sequence of `i64` as integers.
pub open spec fn old_map_push(s: Seq<i64>) -> Seq<int> {
    s.drop_last().map_values(|x: i64| x as int).push(s.last() as int)
}

/// Reads a boolean.
pub fn read_bool(v: &TomlValue) -> (r: Option<bool>)
    ensures
        r == as_bool(*v),
{
    match v {
        TomlValue::Boolean(b) => Some(*b),
        _ => None,
    }
}

/// Reads a string (a copy of it).
pub fn read_string(v: &TomlValue) -> (r: Option<String>)
    ensures
        r == as_string(*v),
{
    match v {
        TomlValue::String(s) => Some(s.clone()),
        _ => None,
    }
}

/// The integer of field `key` in `lo..=hi`, or `default` when the field is
/// absent; `None` when the field holds anything else.
pub open spec fn int_field_or(
    es: Seq<(String, TomlValue)>,
    key: Seq<char>,
    lo: int,
    hi: int,
    default: int,
) -> Option<int> {
    match entry_lookup(es, key) {
        None => Some(default),
        Some(v) => int_in(v, lo, hi),
    }
}

/// The optional integer field `key` in `lo..=hi`: `Some(None)` when absent,
/// `Some(Some(x))` when it holds such an integer, `None` otherwise.
pub open spec fn opt_int_field(es: Seq<(String, TomlValue)>, key: Seq<char>, lo: int, hi: int) -> Option<
    Option<int>,
> {
    match entry_lookup(es, key) {
        None => Some(None),
        Some(v) => match int_in(v, lo, hi) {
            Some(x) => Some(Some(x)),
            None => None,
        },
    }
}

/// The boolean field `key`, or `default` when absent; `None` when the
/// field holds anything else.
pub open spec fn bool_field_or(es: Seq<(String, TomlValue)>, key: Seq<char>, default: bool) -> Option<
    bool,
> {
    match entry_lookup(es, key) {
        None => Some(default),
        Some(v) => as_bool(v),
    }
}

/// The optional string field `key`: `Some(None)` when absent, `Some(Some(s))`
/// for a string, `None` otherwise.
pub open spec fn opt_string_field(es: Seq<(String, TomlValue)>, key: Seq<char>) -> Option<
    Option<String>,
> {
    match entry_lookup(es, key) {
        None => Some(None),
        Some(v) => match as_string(v) {
            Some(s) => Some(Some(s)),
            None => None,
        },
    }
}

/// The integer-array field `key` (each element in `lo..=hi`), or the empty
/// list when absent; `None` when the field holds anything else.
pub open spec fn int_list_field(es: Seq<(String, TomlValue)>, key: Seq<char>, lo: int, hi: int) -> Option<
    Seq<int>,
> {
    match entry_lookup(es, key) {
        None => Some(Seq::<int>::empty()),
        Some(v) => int_list(v, lo, hi),
    }
}

/// Every integer read from an array field lies in the requested range.
pub proof fn lemma_int_list_field_bounds(es: Seq<(String, TomlValue)>, key: Seq<char>, lo: int, hi: int)
    requires
        int_list_field(es, key, lo, hi) is Some,
    ensures
        forall|i: int|
            0 <= i < int_list_field(es, key, lo, hi).unwrap().len() ==> lo
                <= #[trigger] int_list_field(es, key, lo, hi).unwrap()[i] <= hi,
{
    match entry_lookup(es, key) {
        None => {},
        Some(v) => match v {
            TomlValue::Array(items) => {
                lemma_int_items_len(items@, lo, hi);
            },
            _ => {},
        },
    }
}

/// Copies integers known to lie in `0..=255` into bytes.
pub fn to_byte_vec(xs: &Vec<i64>) -> (r: Vec<u8>)
    requires
        forall|i: int| 0 <= i < xs@.len() ==> 0 <= #[trigger] xs@[i] <= 255,
    ensures
        r@.map_values(|x: u8| x as int) == xs@.map_values(|x: i64| x as int),
{
    let mut out: Vec<u8> = Vec::new();
    let mut i: usize = 0;
    while i < xs.len()
        invariant
            i <= xs@.len(),
            forall|j: int| 0 <= j < xs@.len() ==> 0 <= #[trigger] xs@[j] <= 255,
            out@.len() == i,
            forall|j: int| 0 <= j < i ==> #[trigger] out@[j] as int == xs@[j] as int,
        decreases xs@.len() - i,
    {
        let x = xs[i];
        out.push(x as u8);
        i = i + 1;
    }
    assert(out@.map_values(|x: u8| x as int) =~= xs@.map_values(|x: i64| x as int));
    out
}

/// Copies integers known to lie in `0..=u32::MAX` into `u32`s.
pub fn to_u32_vec(xs: &Vec<i64>) -> (r: Vec<u32>)
    requires
        forall|i: int| 0 <= i < xs@.len() ==> 0 <= #[trigger] xs@[i] <= u32::MAX,
    ensures
        r@.map_values(|x: u32| x as int) == xs@.map_values(|x: i64| x as int),
{
    let mut out: Vec<u32> = Vec::new();
    let mut i: usize = 0;
    while i < xs.len()
        invariant
            i <= xs@.len(),
            forall|j: int| 0 <= j < xs@.len() ==> 0 <= #[trigger] xs@[j] <= u32::MAX,
            out@.len() == i,
            forall|j: int| 0 <= j < i ==> #[trigger] out@[j] as int == xs@[j] as int,
        decreases xs@.len() - i,
    {
        let x = xs[i];
        out.push(x as u32);
        i = i + 1;
    }
    assert(out@.map_values(|x: u32| x as int) =~= xs@.map_values(|x: i64| x as int));
    out
}

/// Whether a value is the string `lit`.
pub open spec fn string_is(v: TomlValue, lit: Seq<char>) -> bool {
    v matches TomlValue::String(s) && s@ == lit
}

/// Decides whether a value is the string `lit`.
pub fn read_string_is(v: &TomlValue, lit: &str) -> (r: bool)
    ensures
        r == string_is(*v, lit@),
{
    match v {
        TomlValue::String(s) => *s == lit.to_owned(),
        _ => false,
    }
}

/// The string of a field that must be present.
pub open spec fn required_string(es: Seq<(String, TomlValue)>, key: Seq<char>) -> Option<String> {
    match entry_lookup(es, key) {
        Some(v) => as_string(v),
        None => None,
    }
}

/// Reads a string field that must be present.
pub fn read_required_string(es: &Vec<(String, TomlValue)>, key: &str) -> (r: Option<String>)
    ensures
        r == required_string(es@, key@),
{
    match lookup(es, key) {
        Some(v) => read_string(v),
        None => None,
    }
}

/// Every integer of an array read within a range lies in that range.
pub proof fn lemma_int_list_bounds(v: TomlValue, lo: int, hi: int)
    requires
        int_list(v, lo, hi) is Some,
    ensures
        forall|i: int|
            0 <= i < int_list(v, lo, hi).unwrap().len() ==> lo <= #[trigger] int_list(
                v,
                lo,
                hi,
            ).unwrap()[i] <= hi,
{
    match v {
        TomlValue::Array(items) => {
            lemma_int_items_len(items@, lo, hi);
        },
        _ => {},
    }
}

/// Reads field `key` as an integer in `lo..=hi`, `default` when absent.
pub fn read_int_field_or(es: &Vec<(String, TomlValue)>, key: &str, lo: i64, hi: i64, default: i64) -> (r:
    Option<i64>)
    ensures
        r matches Some(x) ==> int_field_or(es@, key@, lo as int, hi as int, default as int) == Some(
            x as int,
        ),
        r is None ==> int_field_or(es@, key@, lo as int, hi as int, default as int) is None,
{
    match lookup(es, key) {
        None => Some(default),
        Some(v) => read_int_in(v, lo, hi),
    }
}

/// Reads the optional integer field `key` in `lo..=hi`.
pub fn read_opt_int_field(es: &Vec<(String, TomlValue)>, key: &str, lo: i64, hi: i64) -> (r: Option<
    Option<i64>,
>)
    ensures
        r matches Some(Some(x)) ==> opt_int_field(es@, key@, lo as int, hi as int) == Some(
            Some(x as int),
        ),
        r matches Some(None) ==> opt_int_field(es@, key@, lo as int, hi as int) == Some(
            None::<int>,
        ),
        r is None ==> opt_int_field(es@, key@, lo as int, hi as int) is None,
{
    match lookup(es, key) {
        None => Some(None),
        Some(v) => match read_int_in(v, lo, hi) {
            Some(x) => Some(Some(x)),
            None => None,
        },
    }
}

/// Reads the boolean field `key`, `default` when absent.
pub fn read_bool_field_or(es: &Vec<(String, TomlValue)>, key: &str, default: bool) -> (r: Option<bool>)
    ensures
        r == bool_field_or(es@, key@, default),
{
    match lookup(es, key) {
        None => Some(default),
        Some(v) => read_bool(v),
    }
}

/// Reads the optional string field `key`.
pub fn read_opt_string_field(es: &Vec<(String, TomlValue)>, key: &str) -> (r: Option<Option<String>>)
    ensures
        r == opt_string_field(es@, key@),
{
    match lookup(es, key) {
        None => Some(None),
        Some(v) => match read_string(v) {
            Some(s) => Some(Some(s)),
            None => None,
        },
    }
}

/// Reads the integer-array field `key`, empty when absent.
pub fn read_int_list_field(es: &Vec<(String, TomlValue)>, key: &str, lo: i64, hi: i64) -> (r: Option<
    Vec<i64>,
>)
    ensures
        r matches Some(xs) ==> int_list_field(es@, key@, lo as int, hi as int) == Some(
            xs@.map_values(|x: i64| x as int),
        ),
        r is None ==> int_list_field(es@, key@, lo as int, hi as int) is None,
{
    match lookup(es, key) {
        None => {
            let out: Vec<i64> = Vec::new();
            assert(out@.map_values(|x: i64| x as int) =~= Seq::<int>::empty());
            Some(out)
        },
        Some(v) => read_int_list(v, lo, hi),
    }
}

} // verus!
