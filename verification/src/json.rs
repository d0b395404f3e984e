//! The JSON documents that the library reads: responses of the Codex app-server and of the
//! usage service, and the local `auth.json`.
//!
//! Objects keep their entries in the order in which the document was handed over; numbers keep
//! the decimal text that `serde_json` prints for them.
use vstd::prelude::*;

use crate::decimal::{decimal_text, int_text_value, parse_decimal, parse_i64, Decimal};
use crate::text::same_text;

verus! {

/// A JSON value.
#[derive(Debug)]
pub enum JsonValue {
    Null,
    Bool(bool),
    /// A number, held as the decimal text that `serde_json` prints for it.
    Number(String),
    Text(String),
    Array(Vec<JsonValue>),
    /// The entries of an object, in document order.
    Object(Vec<(String, JsonValue)>),
}

/// The character sequences of a list of keys.
pub open spec fn key_seq(keys: Seq<&str>) -> Seq<Seq<char>> {
    keys.map_values(|k: &str| k@)
}

/// The value of the first entry from index `i` on whose key is `key`.
pub open spec fn entry_from(entries: Seq<(String, JsonValue)>, key: Seq<char>, i: int) -> Option<
    JsonValue,
>
    decreases entries.len() - i,
{
    if i < 0 || i >= entries.len() {
        None
    } else if entries[i].0@ == key {
        Some(entries[i].1)
    } else {
        entry_from(entries, key, i + 1)
    }
}

/// The entry found for `key` from `start` on is the one at `i` when no entry before it in
/// between has that key.
pub proof fn lemma_entry_from(entries: Seq<(String, JsonValue)>, key: Seq<char>, start: int, i: int)
    requires
        0 <= start <= i < entries.len(),
        entries[i].0@ == key,
        forall|j: int| start <= j < i ==> entries[j].0@ != key,
    ensures
        entry_from(entries, key, start) == Some(entries[i].1),
    decreases i - start,
{
    if start < i {
        lemma_entry_from(entries, key, start + 1, i);
    }
}

/// `value.get(key)`: the value stored under `key` when `v` is an object.
pub open spec fn field(v: JsonValue, key: Seq<char>) -> Option<JsonValue> {
    match v {
        JsonValue::Object(entries) => entry_from(entries@, key, 0),
        _ => None,
    }
}

/// `value.get(key).unwrap_or(value)`.
pub open spec fn field_or_self(v: JsonValue, key: Seq<char>) -> JsonValue {
    match field(v, key) {
        Some(inner) => inner,
        None => v,
    }
}

/// `value.as_str()`.
pub open spec fn text_of(v: JsonValue) -> Option<Seq<char>> {
    match v {
        JsonValue::Text(t) => Some(t@),
        _ => None,
    }
}

/// `value.get(key).and_then(Value::as_str)`.
pub open spec fn text_field(v: JsonValue, key: Seq<char>) -> Option<Seq<char>> {
    match field(v, key) {
        Some(inner) => text_of(inner),
        None => None,
    }
}

/// The value under the first of `keys` (from index `k` on) that `v` holds, whatever its type.
pub open spec fn first_field_from(v: JsonValue, keys: Seq<Seq<char>>, k: int) -> Option<JsonValue>
    decreases keys.len() - k,
{
    if k < 0 || k >= keys.len() {
        None
    } else {
        match field(v, keys[k]) {
            Some(inner) => Some(inner),
            None => first_field_from(v, keys, k + 1),
        }
    }
}

/// `keys.iter().find_map(|key| value.get(key))`.
pub open spec fn first_field(v: JsonValue, keys: Seq<Seq<char>>) -> Option<JsonValue> {
    first_field_from(v, keys, 0)
}

/// The text under the first of `keys` (from index `k` on) whose value in `v` is a string.
pub open spec fn first_text_field_from(v: JsonValue, keys: Seq<Seq<char>>, k: int) -> Option<
    Seq<char>,
>
    decreases keys.len() - k,
{
    if k < 0 || k >= keys.len() {
        None
    } else {
        match text_field(v, keys[k]) {
            Some(t) => Some(t),
            None => first_text_field_from(v, keys, k + 1),
        }
    }
}

/// Number of children (array elements or object values) of `v`.
pub open spec fn child_count(v: JsonValue) -> int {
    match v {
        JsonValue::Array(items) => items@.len() as int,
        JsonValue::Object(entries) => entries@.len() as int,
        _ => 0,
    }
}

/// The `i`-th child of `v`.
pub open spec fn child(v: JsonValue, i: int) -> JsonValue {
    match v {
        JsonValue::Array(items) => items@[i],
        JsonValue::Object(entries) => entries@[i].1,
        _ => JsonValue::Null,
    }
}

pub proof fn lemma_child_decreases(v: JsonValue, i: int)
    requires
        0 <= i < child_count(v),
    ensures
        decreases_to!(v => child(v, i)),
{
    match v {
        JsonValue::Array(items) => {
            assert(decreases_to!(v => items));
            assert(decreases_to!(items => items@));
            assert(decreases_to!(items@ => items@[i]));
        },
        JsonValue::Object(entries) => {
            assert(decreases_to!(v => entries));
            assert(decreases_to!(entries => entries@));
            assert(decreases_to!(entries@ => entries@[i]));
            assert(decreases_to!(entries@[i] => entries@[i].1));
        },
        _ => {},
    }
}

proof fn lemma_entry_from_member(entries: Seq<(String, JsonValue)>, key: Seq<char>, i: int)
    requires
        entry_from(entries, key, i) is Some,
    ensures
        exists|j: int| 0 <= j < entries.len() && entries[j].1 == entry_from(entries, key, i)->0,
    decreases entries.len() - i,
{
    if entries[i].0@ != key {
        lemma_entry_from_member(entries, key, i + 1);
    }
}

/// A value stored under a key is smaller than the object that holds it.
pub proof fn lemma_field_decreases(v: JsonValue, key: Seq<char>)
    requires
        field(v, key) is Some,
    ensures
        decreases_to!(v => field(v, key)->0),
{
    match v {
        JsonValue::Object(entries) => {
            lemma_entry_from_member(entries@, key, 0);
            let j = choose|j: int|
                0 <= j < entries@.len() && entries@[j].1 == entry_from(entries@, key, 0)->0;
            lemma_child_decreases(v, j);
        },
        _ => {},
    }
}

/// Depth-first search for a string under one of `keys`: in an object the keys are tried in order
/// first, then the children in order; in an array the elements in order.
pub open spec fn find_text(v: JsonValue, keys: Seq<Seq<char>>) -> Option<Seq<char>>
    decreases v, 1int, 0int,
{
    match v {
        JsonValue::Object(_) => match first_text_field_from(v, keys, 0) {
            Some(t) => Some(t),
            None => find_text_in_children(v, keys, 0),
        },
        JsonValue::Array(_) => find_text_in_children(v, keys, 0),
        _ => None,
    }
}

/// `find_text` over the children of `v` from index `i` on: the first one that finds a string.
pub open spec fn find_text_in_children(v: JsonValue, keys: Seq<Seq<char>>, i: int) -> Option<
    Seq<char>,
>
    decreases v, 0int, child_count(v) - i,
{
    if 0 <= i < child_count(v) {
        proof {
            lemma_child_decreases(v, i);
        }
        match find_text(child(v, i), keys) {
            Some(t) => Some(t),
            None => find_text_in_children(v, keys, i + 1),
        }
    } else {
        None
    }
}

/// `Value::as_i64().or_else(|| Value::as_f64().map(|x| x as i64))` on a number's text.
pub open spec fn number_integer(t: Seq<char>) -> Option<int> {
    match int_text_value(t) {
        Some(n) => Some(n),
        None => match decimal_text(t) {
            Some((neg, m, e)) => Some(
                Decimal { negative: neg, mantissa: m as u64, exponent: e as i32 }.trunc_i64(),
            ),
            None => None,
        },
    }
}

/// The decimal that a text reads as.
pub open spec fn decimal_of(t: Seq<char>) -> Option<Decimal> {
    match decimal_text(t) {
        Some((neg, m, e)) => Some(Decimal { negative: neg, mantissa: m as u64, exponent: e as i32 }),
        None => None,
    }
}

/// A number read as an integer (numbers only).
pub open spec fn integer_of(v: JsonValue) -> Option<int> {
    match v {
        JsonValue::Number(t) => number_integer(t@),
        _ => None,
    }
}

/// A number, or a string that `str::parse::<i64>` reads, as an integer.
pub open spec fn integer_or_text_of(v: JsonValue) -> Option<int> {
    match v {
        JsonValue::Number(t) => number_integer(t@),
        JsonValue::Text(t) => int_text_value(t@),
        _ => None,
    }
}

/// A number read as a decimal (numbers only).
pub open spec fn decimal_value_of(v: JsonValue) -> Option<Decimal> {
    match v {
        JsonValue::Number(t) => decimal_of(t@),
        _ => None,
    }
}

/// A number, or a string holding a decimal number, read as a decimal.
pub open spec fn decimal_or_text_of(v: JsonValue) -> Option<Decimal> {
    match v {
        JsonValue::Number(t) => decimal_of(t@),
        JsonValue::Text(t) => decimal_of(t@),
        _ => None,
    }
}

/// Numbers read as integers lie in the range of `i64`.
pub proof fn lemma_integer_of_range()
    ensures
        forall|x: JsonValue|
            #![trigger integer_of(x)]
            integer_of(x).is_some() ==> i64::MIN <= integer_of(x).unwrap() <= i64::MAX,
{
}

impl JsonValue {
    /// `value.get(key)`.
    pub fn get(&self, key: &str) -> (res: Option<&JsonValue>)
        ensures
            match field(*self, key@) {
                Some(inner) => res.is_some() && *res.unwrap() == inner,
                None => res.is_none(),
            },
    {
        match self {
            JsonValue::Object(entries) => {
                let n = entries.len();
                let mut i: usize = 0;
                while i < n
                    invariant
                        n == entries@.len(),
                        i <= n,
                        field(*self, key@) == entry_from(entries@, key@, 0),
                        entry_from(entries@, key@, 0) == entry_from(entries@, key@, i as int),
                    decreases n - i,
                {
                    if same_text(entries[i].0.as_str(), key) {
                        assert(entry_from(entries@, key@, i as int) == Some(entries@[i as int].1));
                        return Some(&entries[i].1);
                    }
                    i = i + 1;
                }
                None
            },
            _ => None,
        }
    }

    /// `value.get(key).unwrap_or(value)`.
    pub fn get_or_self<'a>(&'a self, key: &str) -> (res: &'a JsonValue)
        ensures
            *res == field_or_self(*self, key@),
    {
        match self.get(key) {
            Some(inner) => inner,
            None => self,
        }
    }

    /// `value.as_str()`.
    pub fn as_text(&self) -> (res: Option<&String>)
        ensures
            match text_of(*self) {
                Some(t) => res.is_some() && res.unwrap()@ == t,
                None => res.is_none(),
            },
    {
        match self {
            JsonValue::Text(t) => Some(t),
            _ => None,
        }
    }

    /// `value.get(key).and_then(Value::as_str)`.
    pub fn text_at(&self, key: &str) -> (res: Option<&String>)
        ensures
            match text_field(*self, key@) {
                Some(t) => res.is_some() && res.unwrap()@ == t,
                None => res.is_none(),
            },
    {
        match self.get(key) {
            Some(inner) => inner.as_text(),
            None => None,
        }
    }

    /// Number of children (array elements or object values).
    pub fn child_count(&self) -> (res: usize)
        ensures
            res == child_count(*self),
    {
        match self {
            JsonValue::Array(items) => items.len(),
            JsonValue::Object(entries) => entries.len(),
            _ => 0,
        }
    }

    /// The `i`-th child.
    pub fn child(&self, i: usize) -> (res: &JsonValue)
        requires
            i < child_count(*self),
        ensures
            *res == child(*self, i as int),
    {
        match self {
            JsonValue::Array(items) => &items[i],
            JsonValue::Object(entries) => &entries[i].1,
            _ => self,
        }
    }

    /// The value under the first of `keys` that this value holds.
    pub fn first_field(&self, keys: &[&str]) -> (res: Option<&JsonValue>)
        ensures
            match first_field(*self, key_seq(keys@)) {
                Some(inner) => res.is_some() && *res.unwrap() == inner,
                None => res.is_none(),
            },
    {
        let n = keys.len();
        let mut k: usize = 0;
        while k < n
            invariant
                n == keys@.len(),
                k <= n,
                first_field(*self, key_seq(keys@)) == first_field_from(
                    *self,
                    key_seq(keys@),
                    k as int,
                ),
            decreases n - k,
        {
            if let Some(inner) = self.get(keys[k]) {
                return Some(inner);
            }
            k = k + 1;
        }
        None
    }

    /// The text under the first of `keys` whose value here is a string; nested values are not
    /// searched.
    pub fn first_text_field(&self, keys: &[&str]) -> (res: Option<String>)
        ensures
            match first_text_field_from(*self, key_seq(keys@), 0) {
                Some(t) => res.is_some() && res.unwrap()@ == t,
                None => res.is_none(),
            },
    {
        let n = keys.len();
        let mut k: usize = 0;
        while k < n
            invariant
                n == keys@.len(),
                k <= n,
                first_text_field_from(*self, key_seq(keys@), 0) == first_text_field_from(
                    *self,
                    key_seq(keys@),
                    k as int,
                ),
            decreases n - k,
        {
            if let Some(t) = self.text_at(keys[k]) {
                return Some(t.clone());
            }
            k = k + 1;
        }
        None
    }

    /// Depth-first search for a string under one of `keys` (see `find_text`).
    pub fn find_text(&self, keys: &[&str]) -> (res: Option<String>)
        ensures
            match find_text(*self, key_seq(keys@)) {
                Some(t) => res.is_some() && res.unwrap()@ == t,
                None => res.is_none(),
            },
        decreases *self, 1int, 0int,
    {
        match self {
            JsonValue::Object(_) => {
                let n = keys.len();
                let mut k: usize = 0;
                while k < n
                    invariant
                        n == keys@.len(),
                        k <= n,
                        first_text_field_from(*self, key_seq(keys@), 0) == first_text_field_from(
                            *self,
                            key_seq(keys@),
                            k as int,
                        ),
                    decreases n - k,
                {
                    if let Some(t) = self.text_at(keys[k]) {
                        return Some(t.clone());
                    }
                    k = k + 1;
                }
                self.find_text_in_children(keys, 0)
            },
            JsonValue::Array(_) => self.find_text_in_children(keys, 0),
            _ => None,
        }
    }

    /// `find_text` over the children from index `start` on.
    fn find_text_in_children(&self, keys: &[&str], start: usize) -> (res: Option<String>)
        requires
            start <= child_count(*self),
        ensures
            match find_text_in_children(*self, key_seq(keys@), start as int) {
                Some(t) => res.is_some() && res.unwrap()@ == t,
                None => res.is_none(),
            },
        decreases *self, 0int, child_count(*self) - start,
    {
        let n = self.child_count();
        if start >= n {
            return None;
        }
        proof {
            lemma_child_decreases(*self, start as int);
        }
        match self.child(start).find_text(keys) {
            Some(t) => Some(t),
            None => self.find_text_in_children(keys, start + 1),
        }
    }

    /// Reads a number as an integer (`as_i64`, else `as_f64` truncated); other values give `None`.
    pub fn integer(&self) -> (res: Option<i64>)
        ensures
            match integer_of(*self) {
                Some(n) => res == Some(n as i64),
                None => res.is_none(),
            },
    {
        match self {
            JsonValue::Number(t) => number_integer_exec(t.as_str()),
            _ => None,
        }
    }

    /// Reads a number, or a string of an integer, as an integer.
    pub fn integer_or_text(&self) -> (res: Option<i64>)
        ensures
            match integer_or_text_of(*self) {
                Some(n) => res == Some(n as i64),
                None => res.is_none(),
            },
    {
        match self {
            JsonValue::Number(t) => number_integer_exec(t.as_str()),
            JsonValue::Text(t) => parse_i64(t.as_str()),
            _ => None,
        }
    }

    /// Reads a number as a decimal; other values give `None`.
    pub fn decimal(&self) -> (res: Option<Decimal>)
        ensures
            res == decimal_value_of(*self),
    {
        match self {
            JsonValue::Number(t) => parse_decimal(t.as_str()),
            _ => None,
        }
    }

    /// Reads a number, or a string holding a decimal number, as a decimal.
    pub fn decimal_or_text(&self) -> (res: Option<Decimal>)
        ensures
            res == decimal_or_text_of(*self),
    {
        match self {
            JsonValue::Number(t) => parse_decimal(t.as_str()),
            JsonValue::Text(t) => parse_decimal(t.as_str()),
            _ => None,
        }
    }
}

fn number_integer_exec(t: &str) -> (res: Option<i64>)
    ensures
        match number_integer(t@) {
            Some(n) => res == Some(n as i64),
            None => res.is_none(),
        },
{
    match parse_i64(t) {
        Some(n) => Some(n),
        None => match parse_decimal(t) {
            Some(d) => Some(d.truncate()),
            None => None,
        },
    }
}

} // verus!
