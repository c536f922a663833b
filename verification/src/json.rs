//! Generic structured data, as read from one line of text.

use crate::text::chars_of;
use vstd::prelude::*;

verus! {

/// A JSON document held as plain values.
///
/// A number is kept as its decimal text, so that no precision is lost and no
/// floating point value is needed to carry it. An object keeps its members in
/// order; where a key occurs more than once, the first occurrence counts.
pub enum Json {
    Null,
    Bool(bool),
    Number(String),
    Text(String),
    Array(Vec<Json>),
    Object(Vec<(String, Json)>),
}

/// The mathematical value of a [`Json`] document.
pub enum JsonValue {
    Null,
    Bool(bool),
    Number(Seq<char>),
    Text(Seq<char>),
    Array(Seq<JsonValue>),
    Object(Seq<(Seq<char>, JsonValue)>),
}

impl View for Json {
    type V = JsonValue;

    // The bounds inside the two closures show that each part is smaller than
    // the whole.
    open spec fn view(&self) -> JsonValue
        decreases self,
    {
        match self {
            Json::Null => JsonValue::Null,
            Json::Bool(b) => JsonValue::Bool(*b),
            Json::Number(digits) => JsonValue::Number(digits@),
            Json::Text(text) => JsonValue::Text(text@),
            Json::Array(items) => JsonValue::Array(
                Seq::new(
                    items@.len(),
                    |i: int|
                        if 0 <= i < items@.len() {
                            items@[i]@
                        } else {
                            JsonValue::Null
                        },
                ),
            ),
            Json::Object(members) => JsonValue::Object(
                Seq::new(
                    members@.len(),
                    |i: int|
                        (
                            members@[i].0@,
                            if 0 <= i < members@.len() {
                                members@[i].1@
                            } else {
                                JsonValue::Null
                            },
                        ),
                ),
            ),
        }
    }
}

/// The values held by an array of documents.
pub open spec fn array_view(items: Seq<Json>) -> Seq<JsonValue> {
    Seq::new(items.len(), |i: int| items[i]@)
}

/// The keys and values held by the members of an object.
pub open spec fn object_view(members: Seq<(String, Json)>) -> Seq<(Seq<char>, JsonValue)> {
    Seq::new(members.len(), |i: int| (members[i].0@, members[i].1@))
}

/// The value of the first member of `members` whose key is `key`.
pub open spec fn member(members: Seq<(Seq<char>, JsonValue)>, key: Seq<char>) -> Option<
    JsonValue,
>
    decreases members.len(),
{
    if members.len() == 0 {
        None
    } else if members[0].0 == key {
        Some(members[0].1)
    } else {
        member(members.drop_first(), key)
    }
}

/// Whether `c` is one of the ten decimal digits.
pub open spec fn is_digit(c: char) -> bool {
    '0' <= c <= '9'
}

/// The number that the digit `c` stands for.
pub open spec fn digit_value(c: char) -> nat {
    (c as int - '0' as int) as nat
}

/// The number written by `digits` in base ten, most significant digit first.
pub open spec fn decimal_value(digits: Seq<char>) -> nat
    decreases digits.len(),
{
    if digits.len() == 0 {
        0
    } else {
        10 * decimal_value(digits.drop_last()) + digit_value(digits.last())
    }
}

/// The natural number that `digits` writes: one or more decimal digits and
/// nothing else.
pub open spec fn natural(digits: Seq<char>) -> Option<nat> {
    if digits.len() > 0 && (forall|i: int|
        0 <= i < digits.len() ==> is_digit(#[trigger] digits[i])) {
        Some(decimal_value(digits))
    } else {
        None
    }
}

impl JsonValue {
    /// The member `key` of an object; nothing for any other document.
    pub open spec fn get(self, key: Seq<char>) -> Option<JsonValue> {
        match self {
            JsonValue::Object(members) => member(members, key),
            _ => None,
        }
    }

    /// The text of a string document.
    pub open spec fn as_text(self) -> Option<Seq<char>> {
        match self {
            JsonValue::Text(text) => Some(text),
            _ => None,
        }
    }

    /// The items of an array document.
    pub open spec fn as_array(self) -> Option<Seq<JsonValue>> {
        match self {
            JsonValue::Array(items) => Some(items),
            _ => None,
        }
    }

    /// The value of a number document that is a natural number.
    pub open spec fn as_natural(self) -> Option<nat> {
        match self {
            JsonValue::Number(digits) => natural(digits),
            _ => None,
        }
    }

    /// The value of a number document that is a natural number and fits a
    /// machine word.
    pub open spec fn as_number(self) -> Option<usize> {
        match self.as_natural() {
            Some(n) => if n <= usize::MAX {
                Some(n as usize)
            } else {
                None
            },
            None => None,
        }
    }

    /// The text of the member `key`, where that member is a string.
    pub open spec fn text(self, key: Seq<char>) -> Option<Seq<char>> {
        match self.get(key) {
            Some(value) => value.as_text(),
            None => None,
        }
    }

    /// The value of the member `key`, where that member is a natural number
    /// that fits a machine word.
    pub open spec fn number(self, key: Seq<char>) -> Option<usize> {
        match self.get(key) {
            Some(value) => value.as_number(),
            None => None,
        }
    }

    /// The items of the member `key`, where that member is an array.
    pub open spec fn array(self, key: Seq<char>) -> Option<Seq<JsonValue>> {
        match self.get(key) {
            Some(value) => value.as_array(),
            None => None,
        }
    }
}

/// The view of an array or an object is the view of its parts.
pub proof fn lemma_view_of_parts(json: Json)
    ensures
        json matches Json::Array(items) ==> json@ == JsonValue::Array(array_view(items@)),
        json matches Json::Object(members) ==> json@ == JsonValue::Object(object_view(members@)),
{
    match json {
        Json::Array(items) => {
            assert(json@->Array_0 =~= array_view(items@));
        },
        Json::Object(members) => {
            let viewed = json@->Object_0;
            assert(viewed.len() == members@.len());
            assert forall|i: int| 0 <= i < viewed.len() implies viewed[i] == object_view(
                members@,
            )[i] by {
                assert(viewed[i] == (members@[i].0@, members@[i].1@));
            }
            assert(viewed =~= object_view(members@));
        },
        _ => {},
    }
}

/// A number never shrinks when more digits are written after it.
pub proof fn lemma_decimal_prefix(digits: Seq<char>, k: int)
    requires
        0 <= k <= digits.len(),
    ensures
        decimal_value(digits.take(k)) <= decimal_value(digits),
    decreases digits.len() - k,
{
    if k < digits.len() {
        lemma_decimal_prefix(digits, k + 1);
        assert(digits.take(k + 1).drop_last() == digits.take(k));
    } else {
        assert(digits.take(k) == digits);
    }
}

impl Json {
    /// The member `key` of an object.
    pub fn get(&self, key: &str) -> (found: Option<&Json>)
        ensures
            found is Some <==> self@.get(key@) is Some,
            found matches Some(json) ==> self@.get(key@) == Some(json@),
    {
        match self {
            Json::Object(members) => {
                proof {
                    lemma_view_of_parts(*self);
                }
                let wanted = key.to_owned();
                let ghost all = object_view(members@);
                let mut i: usize = 0;
                assert(all.skip(0) == all);
                while i < members.len()
                    invariant
                        i <= members.len(),
                        wanted@ == key@,
                        all == object_view(members@),
                        self@ == JsonValue::Object(all),
                        member(all, key@) == member(all.skip(i as int), key@),
                    decreases members.len() - i,
                {
                    assert(all.skip(i as int).drop_first() == all.skip(i + 1));
                    assert(all.skip(i as int)[0] == all[i as int]);
                    if members[i].0 == wanted {
                        return Some(&members[i].1);
                    }
                    i += 1;
                }
                None
            },
            _ => None,
        }
    }

    /// The text of a string document.
    pub fn as_text(&self) -> (text: Option<&String>)
        ensures
            text is Some <==> self@.as_text() is Some,
            text matches Some(t) ==> self@.as_text() == Some(t@),
    {
        match self {
            Json::Text(text) => Some(text),
            _ => None,
        }
    }

    /// The items of an array document.
    pub fn as_array(&self) -> (items: Option<&Vec<Json>>)
        ensures
            items is Some <==> self@.as_array() is Some,
            items matches Some(v) ==> self@.as_array() == Some(array_view(v@)),
    {
        proof {
            lemma_view_of_parts(*self);
        }
        match self {
            Json::Array(items) => Some(items),
            _ => None,
        }
    }

    /// The value of a number document that is a natural number and fits a
    /// machine word.
    pub fn as_number(&self) -> (number: Option<usize>)
        ensures
            number == self@.as_number(),
    {
        match self {
            Json::Number(digits) => parse_natural(digits.as_str()),
            _ => None,
        }
    }

    /// A copy of the text of the member `key`, where that member is a string.
    pub fn text(&self, key: &str) -> (text: Option<String>)
        ensures
            text is Some <==> self@.text(key@) is Some,
            text matches Some(t) ==> self@.text(key@) == Some(t@),
    {
        match self.get(key) {
            Some(value) => match value.as_text() {
                Some(text) => Some(text.clone()),
                None => None,
            },
            None => None,
        }
    }

    /// The value of the member `key`, where that member is a natural number
    /// that fits a machine word.
    pub fn number(&self, key: &str) -> (number: Option<usize>)
        ensures
            number == self@.number(key@),
    {
        match self.get(key) {
            Some(value) => value.as_number(),
            None => None,
        }
    }

    /// The items of the member `key`, where that member is an array.
    pub fn array(&self, key: &str) -> (items: Option<&Vec<Json>>)
        ensures
            items is Some <==> self@.array(key@) is Some,
            items matches Some(v) ==> self@.array(key@) == Some(array_view(v@)),
    {
        match self.get(key) {
            Some(value) => value.as_array(),
            None => None,
        }
    }
}

/// Reads `digits` as a natural number that fits a machine word.
pub fn parse_natural(digits: &str) -> (value: Option<usize>)
    ensures
        value == JsonValue::Number(digits@).as_number(),
{
    let chars = chars_of(digits);
    if chars.len() == 0 {
        return None;
    }
    let mut value: usize = 0;
    let mut i: usize = 0;
    while i < chars.len()
        invariant
            i <= chars.len(),
            chars@ == digits@,
            forall|j: int| 0 <= j < i ==> is_digit(#[trigger] chars@[j]),
            value == decimal_value(chars@.take(i as int)),
        decreases chars.len() - i,
    {
        let c = chars[i];
        if c < '0' || c > '9' {
            return None;
        }
        let digit: usize = (c as u32 - '0' as u32) as usize;
        assert(chars@.take(i + 1).drop_last() == chars@.take(i as int));
        if value > (usize::MAX - digit) / 10 {
            proof {
                lemma_decimal_prefix(chars@, i + 1);
            }
            return None;
        }
        value = value * 10 + digit;
        i += 1;
    }
    assert(chars@.take(chars.len() as int) == chars@);
    Some(value)
}

/// The document type of `serde_json`, carried through without looking inside.
#[verifier::external_type_specification]
#[verifier::external_body]
pub struct ExValue(serde_json::Value);

/// What `serde_json::from_str` makes of `text` when asked for a generic
/// value: the document, or nothing when `text` is not exactly one JSON value.
pub uninterp spec fn json_document(text: Seq<char>) -> Option<JsonValue>;

/// What a `serde_json::Value` holds.
pub uninterp spec fn value_contents(value: serde_json::Value) -> JsonValue;

/// Parses `text` with `serde_json::from_str`. The outcome depends on the
/// text alone; a parse error is reported as `None`.
#[verifier::external_body]
fn parse_value(text: &str) -> (parsed: Option<serde_json::Value>)
    ensures
        parsed is Some <==> json_document(text@) is Some,
        parsed matches Some(value) ==> json_document(text@) == Some(value_contents(value)),
{
    match serde_json::from_str::<serde_json::Value>(text) {
        Ok(value) => Some(value),
        Err(_) => None,
    }
}

/// Copies a `serde_json::Value` into a [`Json`], variant by variant. A number
/// is rendered by the `Display` impl of `serde_json::Number`; the members of
/// an object come in the order in which `serde_json::Map` yields them.
#[verifier::external_body]
fn json_of_value(value: serde_json::Value) -> (json: Json)
    ensures
        json@ == value_contents(value),
{
    match value {
        serde_json::Value::Null => Json::Null,
        serde_json::Value::Bool(b) => Json::Bool(b),
        serde_json::Value::Number(n) => Json::Number(n.to_string()),
        serde_json::Value::String(s) => Json::Text(s),
        serde_json::Value::Array(items) => Json::Array(
            items.into_iter().map(json_of_value).collect(),
        ),
        serde_json::Value::Object(members) => Json::Object(
            members.into_iter().map(|(key, member)| (key, json_of_value(member))).collect(),
        ),
    }
}

/// Reads `text` as one JSON document.
pub fn parse(text: &str) -> (parsed: Option<Json>)
    ensures
        parsed is Some <==> json_document(text@) is Some,
        parsed matches Some(json) ==> json_document(text@) == Some(json@),
{
    match parse_value(text) {
        Some(value) => Some(json_of_value(value)),
        None => None,
    }
}

} // verus!
