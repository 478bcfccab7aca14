//! JSON documents as plain values.

use serde_json::Value;
use vstd::prelude::*;

use crate::errors::{Error, ErrorKind};

verus! {

/// A JSON value.
///
/// A number is held as its decimal text, so that no precision is lost and
/// the codec can decide by itself which numbers are unsigned integers.
/// An object is held as its members in order. A list of members may hold a
/// name twice, which a map cannot: `JsonValue::well_formed` says of a value
/// that none of its objects does.
#[derive(Debug)]
pub enum Json {
    Null,
    Bool(bool),
    Number(String),
    Text(String),
    Array(Vec<Json>),
    Object(Vec<Member>),
}

/// A member of a JSON object: a name and the value under it.
#[derive(Debug)]
pub struct Member {
    pub name: String,
    pub value: Json,
}

/// The mathematical value of a [`Json`].
pub enum JsonValue {
    Null,
    Bool(bool),
    Number(Seq<char>),
    Text(Seq<char>),
    Array(Seq<JsonValue>),
    Object(Seq<MemberValue>),
}

/// The mathematical value of a [`Member`].
pub struct MemberValue {
    pub name: Seq<char>,
    pub value: JsonValue,
}

impl DeepView for Member {
    type V = MemberValue;

    open spec fn deep_view(&self) -> MemberValue {
        MemberValue { name: self.name@, value: self.value.deep_view() }
    }
}

impl DeepView for Json {
    type V = JsonValue;

    open spec fn deep_view(&self) -> JsonValue
        decreases self,
    {
        match self {
            Json::Null => JsonValue::Null,
            Json::Bool(b) => JsonValue::Bool(*b),
            Json::Number(n) => JsonValue::Number(n@),
            Json::Text(s) => JsonValue::Text(s@),
            Json::Array(items) => JsonValue::Array(
                Seq::new(
                    items@.len(),
                    |i: int|
                        if 0 <= i < items@.len() {
                            items@[i].deep_view()
                        } else {
                            JsonValue::Null
                        },
                ),
            ),
            Json::Object(members) => JsonValue::Object(
                Seq::new(
                    members@.len(),
                    |i: int|
                        if 0 <= i < members@.len() {
                            MemberValue {
                                name: members@[i].name@,
                                value: members@[i].value.deep_view(),
                            }
                        } else {
                            MemberValue { name: Seq::empty(), value: JsonValue::Null }
                        },
                ),
            ),
        }
    }
}

impl JsonValue {
    /// The value of the first member named `key` among `members`.
    pub open spec fn lookup(members: Seq<MemberValue>, key: Seq<char>) -> Option<JsonValue>
        decreases members.len(),
    {
        if members.len() == 0 {
            None
        } else if members[0].name == key {
            Some(members[0].value)
        } else {
            Self::lookup(members.drop_first(), key)
        }
    }

    /// Whether the members bear names that are all different: what a map
    /// from names to values gives, and what a list of members need not.
    pub open spec fn distinct_names(members: Seq<MemberValue>) -> bool {
        forall|i: int, j: int|
            0 <= i < j < members.len() ==> (#[trigger] members[i]).name != (
            #[trigger] members[j]).name
    }

    /// Whether every object in the value, the nested ones too, holds each
    /// name at most once. This holds of every document that `Json::parse`
    /// reads. Of a value built by hand it holds where the builder sees to
    /// it; where it does not hold, a lookup by name finds the first member
    /// of the name, and writing the value keeps one member of each name.
    pub open spec fn well_formed(self) -> bool
        decreases self,
    {
        match self {
            JsonValue::Array(items) => forall|i: int|
                0 <= i < items.len() ==> (#[trigger] items[i]).well_formed(),
            JsonValue::Object(members) => Self::distinct_names(members) && forall|i: int|
                0 <= i < members.len() ==> (#[trigger] members[i]).value.well_formed(),
            _ => true,
        }
    }

    /// The member named `key`, if this is an object that has one.
    pub open spec fn member(self, key: Seq<char>) -> Option<JsonValue> {
        match self {
            JsonValue::Object(members) => Self::lookup(members, key),
            _ => None,
        }
    }

    /// The member named `key`, unless it is absent or `null`.
    pub open spec fn field(self, key: Seq<char>) -> Option<JsonValue> {
        match self.member(key) {
            Some(JsonValue::Null) => None,
            other => other,
        }
    }

    /// The characters of a string.
    pub open spec fn text(self) -> Option<Seq<char>> {
        match self {
            JsonValue::Text(s) => Some(s),
            _ => None,
        }
    }

    /// The truth value of a boolean.
    pub open spec fn boolean(self) -> Option<bool> {
        match self {
            JsonValue::Bool(b) => Some(b),
            _ => None,
        }
    }

    /// The number, if it is written with decimal digits alone.
    pub open spec fn unsigned(self) -> Option<nat> {
        match self {
            JsonValue::Number(digits) if is_decimal(digits) => Some(decimal_value(digits)),
            _ => None,
        }
    }

    /// The unsigned number, if it is at most `max`.
    pub open spec fn unsigned_up_to(self, max: nat) -> Option<nat> {
        match self.unsigned() {
            Some(n) if n <= max => Some(n),
            _ => None,
        }
    }

    /// The items of an array.
    pub open spec fn items(self) -> Option<Seq<JsonValue>> {
        match self {
            JsonValue::Array(items) => Some(items),
            _ => None,
        }
    }

    /// The members of an object.
    pub open spec fn members(self) -> Option<Seq<MemberValue>> {
        match self {
            JsonValue::Object(members) => Some(members),
            _ => None,
        }
    }

    /// The string under `key`. A member that is absent, `null` or no string
    /// gives `None`.
    pub open spec fn text_at(self, key: Seq<char>) -> Option<Seq<char>> {
        match self.field(key) {
            Some(v) => v.text(),
            None => None,
        }
    }

    /// The boolean under `key`. A member that is absent, `null` or no boolean
    /// gives `None`.
    pub open spec fn bool_at(self, key: Seq<char>) -> Option<bool> {
        match self.field(key) {
            Some(v) => v.boolean(),
            None => None,
        }
    }

    /// The unsigned number under `key`, at most `max`. A member that is
    /// absent, `null` or no such number gives `None`.
    pub open spec fn unsigned_at(self, key: Seq<char>, max: nat) -> Option<nat> {
        match self.field(key) {
            Some(v) => v.unsigned_up_to(max),
            None => None,
        }
    }

    /// Whether the member under `key` may stand for an optional string: it is
    /// absent, `null` or a string.
    pub open spec fn text_fits(self, key: Seq<char>) -> bool {
        self.field(key) is Some ==> self.text_at(key) is Some
    }

    /// Whether the member under `key` may stand for an optional unsigned
    /// number of at most `max`: it is absent, `null` or such a number.
    pub open spec fn unsigned_fits(self, key: Seq<char>, max: nat) -> bool {
        self.field(key) is Some ==> self.unsigned_at(key, max) is Some
    }

    /// The optional unsigned number of 64 bits under `key`, where the member
    /// fits one.
    pub open spec fn optional_u64_at(self, key: Seq<char>) -> Option<u64> {
        match self.unsigned_at(key, u64::MAX as nat) {
            Some(n) => Some(n as u64),
            None => None,
        }
    }

    /// The optional unsigned number of a machine word under `key`, where the
    /// member fits one.
    pub open spec fn optional_usize_at(self, key: Seq<char>) -> Option<usize> {
        match self.unsigned_at(key, usize::MAX as nat) {
            Some(n) => Some(n as usize),
            None => None,
        }
    }

    /// The numbers of an array whose items are all unsigned numbers of 32
    /// bits.
    pub open spec fn u32_items(self) -> Option<Seq<u32>> {
        match self {
            JsonValue::Array(items) if forall|i: int|
                0 <= i < items.len() ==> (#[trigger] items[i]).unsigned_up_to(u32::MAX as nat)
                    is Some => Some(
                Seq::new(
                    items.len(),
                    |i: int| items[i].unsigned_up_to(u32::MAX as nat)->0 as u32,
                ),
            ),
            _ => None,
        }
    }

    /// The strings of an array whose items are all strings.
    pub open spec fn text_items(self) -> Option<Seq<Seq<char>>> {
        match self {
            JsonValue::Array(items) if forall|i: int|
                0 <= i < items.len() ==> (#[trigger] items[i]).text() is Some => Some(
                Seq::new(items.len(), |i: int| items[i].text()->0),
            ),
            _ => None,
        }
    }

    /// Whether the member under `key` may stand for an optional list of
    /// unsigned numbers of 32 bits.
    pub open spec fn u32_items_fit(self, key: Seq<char>) -> bool {
        self.field(key) matches Some(v) ==> v.u32_items() is Some
    }

    /// The optional list of unsigned numbers of 32 bits under `key`, where
    /// the member fits one.
    pub open spec fn optional_u32_items_at(self, key: Seq<char>) -> Option<Seq<u32>> {
        match self.field(key) {
            Some(v) => v.u32_items(),
            None => None,
        }
    }

    /// Whether the member under `key` may stand for an optional list of
    /// strings.
    pub open spec fn text_items_fit(self, key: Seq<char>) -> bool {
        self.field(key) matches Some(v) ==> v.text_items() is Some
    }

    /// The optional list of strings under `key`, where the member fits one.
    pub open spec fn optional_text_items_at(self, key: Seq<char>) -> Option<Seq<Seq<char>>> {
        match self.field(key) {
            Some(v) => v.text_items(),
            None => None,
        }
    }

    /// The string with the given characters.
    pub open spec fn optional_text(text: Option<Seq<char>>) -> JsonValue {
        match text {
            Some(s) => JsonValue::Text(s),
            None => JsonValue::Null,
        }
    }

    /// The boolean, or `null` where there is none.
    pub open spec fn optional_bool(b: Option<bool>) -> JsonValue {
        match b {
            Some(b) => JsonValue::Bool(b),
            None => JsonValue::Null,
        }
    }

    /// The array of the given strings.
    pub open spec fn texts(texts: Seq<Seq<char>>) -> JsonValue {
        JsonValue::Array(Seq::new(texts.len(), |i: int| JsonValue::Text(texts[i])))
    }

    /// The array of the given strings, or `null` where there is none.
    pub open spec fn optional_texts(texts: Option<Seq<Seq<char>>>) -> JsonValue {
        match texts {
            Some(s) => Self::texts(s),
            None => JsonValue::Null,
        }
    }

    /// The object of the given members, or `null` where there is none.
    pub open spec fn optional_object(members: Option<Seq<MemberValue>>) -> JsonValue {
        match members {
            Some(m) => JsonValue::Object(m),
            None => JsonValue::Null,
        }
    }

    /// The member with the given name and value.
    pub open spec fn entry(name: Seq<char>, value: JsonValue) -> MemberValue {
        MemberValue { name, value }
    }
}

/// Whether `c` is one of the ten decimal digits.
pub open spec fn is_digit(c: char) -> bool {
    '0' <= c <= '9'
}

/// Whether `s` is a non-empty run of decimal digits.
pub open spec fn is_decimal(s: Seq<char>) -> bool {
    s.len() > 0 && forall|i: int| 0 <= i < s.len() ==> is_digit(#[trigger] s[i])
}

/// The number that the decimal digits `s` write.
pub open spec fn decimal_value(s: Seq<char>) -> nat
    decreases s.len(),
{
    if s.len() == 0 {
        0
    } else {
        decimal_value(s.drop_last()) * 10 + (s.last() as nat - '0' as nat) as nat
    }
}

/// What a lookup finds is the value of one of the members, and that member
/// bears the name looked for.
pub proof fn lemma_lookup_finds_a_member(members: Seq<MemberValue>, key: Seq<char>)
    ensures
        JsonValue::lookup(members, key) matches Some(v) ==> exists|i: int|
            0 <= i < members.len() && (#[trigger] members[i]).name == key && members[i].value
                == v,
        JsonValue::lookup(members, key) is None ==> forall|i: int|
            0 <= i < members.len() ==> (#[trigger] members[i]).name != key,
    decreases members.len(),
{
    if members.len() > 0 && members[0].name != key {
        let rest = members.drop_first();
        lemma_lookup_finds_a_member(rest, key);
        if JsonValue::lookup(rest, key) is Some {
            let i = choose|i: int|
                0 <= i < rest.len() && (#[trigger] rest[i]).name == key && rest[i].value
                    == JsonValue::lookup(rest, key)->0;
            assert(members[i + 1] == rest[i]);
        } else {
            assert forall|i: int| 0 <= i < members.len() implies (#[trigger] members[i]).name
                != key by {
                if i > 0 {
                    assert(members[i] == rest[i - 1]);
                }
            }
        }
    }
}

/// Among members whose names are all different, a lookup by the name of a
/// member finds that member and no other: the first of the name is the
/// only one.
pub proof fn lemma_lookup_among_distinct_names(members: Seq<MemberValue>, i: int)
    requires
        JsonValue::distinct_names(members),
        0 <= i < members.len(),
    ensures
        JsonValue::lookup(members, members[i].name) == Some(members[i].value),
    decreases members.len(),
{
    if i > 0 {
        let rest = members.drop_first();
        assert(members[0].name != members[i].name);
        assert forall|a: int, b: int| 0 <= a < b < rest.len() implies (#[trigger] rest[a]).name
            != (#[trigger] rest[b]).name by {
            assert(rest[a] == members[a + 1]);
            assert(rest[b] == members[b + 1]);
        }
        assert(rest[i - 1] == members[i]);
        lemma_lookup_among_distinct_names(rest, i - 1);
    }
}

/// The members of a well-formed value are well-formed: what a lookup by
/// name finds in one holds each name at most once itself.
pub proof fn lemma_member_is_well_formed(doc: JsonValue, key: Seq<char>)
    requires
        doc.well_formed(),
    ensures
        doc.member(key) matches Some(v) ==> v.well_formed(),
        doc.field(key) matches Some(v) ==> v.well_formed(),
{
    if let JsonValue::Object(members) = doc {
        lemma_lookup_finds_a_member(members, key);
    }
}

/// A longer run of digits writes a number at least as large as any of its
/// prefixes.
pub proof fn lemma_decimal_value_grows(s: Seq<char>, k: int)
    requires
        0 <= k <= s.len(),
        forall|i: int| 0 <= i < s.len() ==> is_digit(#[trigger] s[i]),
    ensures
        decimal_value(s.take(k)) <= decimal_value(s),
    decreases s.len() - k,
{
    if k == s.len() {
        assert(s.take(k) == s);
    } else {
        let longer = s.take(k + 1);
        assert(longer.drop_last() == s.take(k));
        assert(is_digit(s[k]));
        assert(longer.last() == s[k]);
        lemma_decimal_value_grows(s, k + 1);
    }
}

impl Json {
    /// The member named `key`, if this is an object that has one. Where
    /// several members bear the name, the first one counts.
    pub fn member(&self, key: &str) -> (r: Option<&Json>)
        ensures
            match r {
                Some(found) => self.deep_view().member(key@) == Some(found.deep_view()),
                None => self.deep_view().member(key@) is None,
            },
    {
        match self {
            Json::Object(members) => {
                let name = String::from_str(key);
                let ghost all = self.deep_view()->Object_0;
                assert(all.skip(0) == all);
                let mut i: usize = 0;
                while i < members.len()
                    invariant
                        i <= members.len(),
                        name@ == key@,
                        self.deep_view() == JsonValue::Object(all),
                        all.len() == members.len(),
                        forall|j: int|
                            0 <= j < members.len() ==> #[trigger] all[j]
                                == members@[j].deep_view(),
                        JsonValue::lookup(all, key@) == JsonValue::lookup(all.skip(i as int), key@),
                    decreases members.len() - i,
                {
                    proof {
                        let rest = all.skip(i as int);
                        assert(rest[0] == all[i as int]);
                        assert(rest.drop_first() == all.skip(i + 1));
                    }
                    if members[i].name == name {
                        return Some(&members[i].value);
                    }
                    i = i + 1;
                }
                None
            },
            _ => None,
        }
    }

    /// The member named `key`, unless it is absent or `null`.
    pub fn field(&self, key: &str) -> (r: Option<&Json>)
        ensures
            match r {
                Some(found) => self.deep_view().field(key@) == Some(found.deep_view()),
                None => self.deep_view().field(key@) is None,
            },
    {
        match self.member(key) {
            Some(Json::Null) => None,
            other => other,
        }
    }

    /// The characters of a string.
    pub fn as_text(&self) -> (r: Option<&String>)
        ensures
            match r {
                Some(s) => self.deep_view().text() == Some(s@),
                None => self.deep_view().text() is None,
            },
    {
        match self {
            Json::Text(s) => Some(s),
            _ => None,
        }
    }

    /// The truth value of a boolean.
    pub fn as_bool(&self) -> (r: Option<bool>)
        ensures
            r == self.deep_view().boolean(),
    {
        match self {
            Json::Bool(b) => Some(*b),
            _ => None,
        }
    }

    /// The number, if it is written with decimal digits alone and fits 64 bits.
    pub fn as_u64(&self) -> (r: Option<u64>)
        ensures
            match r {
                Some(n) => self.deep_view().unsigned_up_to(u64::MAX as nat) == Some(n as nat),
                None => self.deep_view().unsigned_up_to(u64::MAX as nat) is None,
            },
    {
        match self {
            Json::Number(digits) => decimal_u64(digits.as_str()),
            _ => None,
        }
    }

    /// The items of an array.
    pub fn as_array(&self) -> (r: Option<&Vec<Json>>)
        ensures
            match r {
                Some(items) => self.deep_view().items() == Some(items.deep_view()),
                None => self.deep_view().items() is None,
            },
    {
        match self {
            Json::Array(items) => {
                assert(items.deep_view() =~= self.deep_view()->Array_0);
                Some(items)
            },
            _ => None,
        }
    }

    /// The members of an object.
    pub fn as_object(&self) -> (r: Option<&Vec<Member>>)
        ensures
            match r {
                Some(members) => self.deep_view().members() == Some(members.deep_view()),
                None => self.deep_view().members() is None,
            },
    {
        match self {
            Json::Object(members) => {
                assert(members.deep_view() =~= self.deep_view()->Object_0);
                Some(members)
            },
            _ => None,
        }
    }
}

/// Reads a run of decimal digits as a number of 64 bits. Anything else,
/// the empty string and a number too large give `None`.
pub fn decimal_u64(s: &str) -> (r: Option<u64>)
    ensures
        match r {
            Some(n) => is_decimal(s@) && decimal_value(s@) == n,
            None => !is_decimal(s@) || decimal_value(s@) > u64::MAX,
        },
{
    let len = s.unicode_len();
    if len == 0 {
        return None;
    }
    let mut value: u64 = 0;
    let mut i: usize = 0;
    while i < len
        invariant
            i <= len,
            len == s@.len(),
            forall|j: int| 0 <= j < i ==> is_digit(#[trigger] s@[j]),
            value == decimal_value(s@.take(i as int)),
        decreases len - i,
    {
        let c = s.get_char(i);
        if c < '0' || c > '9' {
            return None;
        }
        let digit: u64 = (c as u8 - '0' as u8) as u64;
        proof {
            let longer = s@.take(i + 1);
            assert(longer.drop_last() == s@.take(i as int));
            assert(longer.last() == c);
            assert(decimal_value(longer) == value * 10 + digit);
            if value * 10 + digit > u64::MAX && is_decimal(s@) {
                lemma_decimal_value_grows(s@, i + 1);
            }
        }
        if value > (u64::MAX - digit) / 10 {
            return None;
        }
        value = value * 10 + digit;
        i = i + 1;
    }
    assert(s@.take(len as int) == s@);
    Some(value)
}

/// A JSON tree of `serde_json`, as its parser builds it. It only passes
/// from the parser to the conversion below; nothing is known of it.
#[verifier::external_type_specification]
#[verifier::external_body]
pub struct ExTree(serde_json::Value);

/// The JSON document that the bytes hold, as `serde_json` reads them;
/// `None` where it refuses them.
pub uninterp spec fn document(bytes: Seq<u8>) -> Option<JsonValue>;

/// Calls `serde_json::from_slice` for a `serde_json::Value` and hands the
/// tree over as a [`Json`]. The contract gives the outcome a name: the
/// call succeeds exactly on the bytes that have a document, and the tree
/// is that document. What the parser accepts is not stated here. One fact
/// is: every object of the tree is a map of `serde_json`, which holds each
/// name once, so the document is well-formed.
#[verifier::external_body]
fn read_document(bytes: &[u8]) -> (r: Result<Json, String>)
    ensures
        match r {
            Ok(doc) => document(bytes@) == Some(doc.deep_view()) && doc.deep_view().well_formed(),
            Err(_) => document(bytes@) is None,
        },
{
    match serde_json::from_slice::<serde_json::Value>(bytes) {
        Ok(value) => Ok(json_of(value)),
        Err(e) => Err(e.to_string()),
    }
}

/// Moves a `serde_json::Value` into a [`Json`], variant by variant. A
/// number becomes the text that `serde_json` prints for it.
#[verifier::external_body]
fn json_of(value: Value) -> Json {
    match value {
        Value::Null => Json::Null,
        Value::Bool(b) => Json::Bool(b),
        Value::Number(n) => Json::Number(n.to_string()),
        Value::String(s) => Json::Text(s),
        Value::Array(items) => Json::Array(items.into_iter().map(json_of).collect()),
        Value::Object(map) => Json::Object(
            map.into_iter().map(|(name, v)| Member { name, value: json_of(v) }).collect(),
        ),
    }
}

impl Json {
    /// Reads the one JSON document that `bytes` hold. Every object of the
    /// document holds each name at most once.
    ///
    /// Fails with `JsonDecoding` exactly where the bytes hold no document.
    pub fn parse(bytes: &[u8]) -> (r: Result<Json, Error>)
        ensures
            match r {
                Ok(doc) => document(bytes@) == Some(doc.deep_view())
                    && doc.deep_view().well_formed(),
                Err(e) => document(bytes@) is None && e.kind() == ErrorKind::JsonDecoding,
            },
    {
        match read_document(bytes) {
            Ok(doc) => Ok(doc),
            Err(message) => Err(Error::JsonDecoding(message)),
        }
    }
}

/// What reading an optional member gave.
pub enum Optional<T> {
    /// The member is absent or `null`.
    Absent,
    /// The member holds a value of the expected type.
    Present(T),
    /// The member holds something else.
    Unfit,
}

impl Json {
    /// The string under `key`, copied.
    pub fn text_at(&self, key: &str) -> (r: Option<String>)
        ensures
            r.deep_view() == self.deep_view().text_at(key@),
    {
        match self.field(key) {
            Some(v) => match v.as_text() {
                Some(s) => Some(s.clone()),
                None => None,
            },
            None => None,
        }
    }

    /// The boolean under `key`.
    pub fn bool_at(&self, key: &str) -> (r: Option<bool>)
        ensures
            r == self.deep_view().bool_at(key@),
    {
        match self.field(key) {
            Some(v) => v.as_bool(),
            None => None,
        }
    }

    /// The unsigned number of 64 bits under `key`.
    pub fn u64_at(&self, key: &str) -> (r: Option<u64>)
        ensures
            match r {
                Some(n) => self.deep_view().unsigned_at(key@, u64::MAX as nat) == Some(n as nat),
                None => self.deep_view().unsigned_at(key@, u64::MAX as nat) is None,
            },
    {
        match self.field(key) {
            Some(v) => v.as_u64(),
            None => None,
        }
    }

    /// The unsigned number under `key`, where it fits the machine's word.
    pub fn usize_at(&self, key: &str) -> (r: Option<usize>)
        ensures
            match r {
                Some(n) => self.deep_view().unsigned_at(key@, usize::MAX as nat) == Some(n as nat),
                None => self.deep_view().unsigned_at(key@, usize::MAX as nat) is None,
            },
    {
        match self.u64_at(key) {
            Some(n) => if n <= usize::MAX as u64 {
                Some(n as usize)
            } else {
                None
            },
            None => None,
        }
    }

    /// The optional string under `key`, copied.
    pub fn optional_text_at(&self, key: &str) -> (r: Optional<String>)
        ensures
            match r {
                Optional::Absent => self.deep_view().field(key@) is None,
                Optional::Present(s) => self.deep_view().field(key@) is Some
                    && self.deep_view().text_at(key@) == Some(s@),
                Optional::Unfit => !self.deep_view().text_fits(key@),
            },
    {
        match self.field(key) {
            None => Optional::Absent,
            Some(v) => match v.as_text() {
                Some(s) => Optional::Present(s.clone()),
                None => Optional::Unfit,
            },
        }
    }

    /// The optional unsigned number of 64 bits under `key`.
    pub fn optional_u64_at(&self, key: &str) -> (r: Optional<u64>)
        ensures
            match r {
                Optional::Absent => self.deep_view().field(key@) is None,
                Optional::Present(n) => self.deep_view().field(key@) is Some
                    && self.deep_view().unsigned_at(key@, u64::MAX as nat) == Some(n as nat),
                Optional::Unfit => !self.deep_view().unsigned_fits(key@, u64::MAX as nat),
            },
    {
        match self.field(key) {
            None => Optional::Absent,
            Some(v) => match v.as_u64() {
                Some(n) => Optional::Present(n),
                None => Optional::Unfit,
            },
        }
    }

    /// The optional unsigned number under `key`, where it fits the machine's
    /// word.
    pub fn optional_usize_at(&self, key: &str) -> (r: Optional<usize>)
        ensures
            match r {
                Optional::Absent => self.deep_view().field(key@) is None,
                Optional::Present(n) => self.deep_view().field(key@) is Some
                    && self.deep_view().unsigned_at(key@, usize::MAX as nat) == Some(n as nat),
                Optional::Unfit => !self.deep_view().unsigned_fits(key@, usize::MAX as nat),
            },
    {
        match self.optional_u64_at(key) {
            Optional::Absent => Optional::Absent,
            Optional::Present(n) => if n <= usize::MAX as u64 {
                Optional::Present(n as usize)
            } else {
                Optional::Unfit
            },
            Optional::Unfit => Optional::Unfit,
        }
    }
}

impl Json {
    /// The numbers of an array whose items are all unsigned numbers of 32
    /// bits.
    pub fn as_u32_items(&self) -> (r: Option<Vec<u32>>)
        ensures
            r.deep_view() == self.deep_view().u32_items(),
    {
        let items = match self.as_array() {
            Some(items) => items,
            None => return None,
        };
        let ghost all = self.deep_view()->Array_0;
        let mut out: Vec<u32> = Vec::new();
        let mut i: usize = 0;
        while i < items.len()
            invariant
                i <= items.len(),
                all == items.deep_view(),
                self.deep_view() == JsonValue::Array(all),
                out@.len() == i,
                forall|j: int|
                    0 <= j < i ==> (#[trigger] all[j]).unsigned_up_to(u32::MAX as nat) == Some(
                        out@[j] as nat,
                    ),
            decreases items.len() - i,
        {
            assert(all[i as int] == items@[i as int].deep_view());
            match items[i].as_u64() {
                Some(n) => {
                    if n > u32::MAX as u64 {
                        return None;
                    }
                    out.push(n as u32);
                },
                None => {
                    return None;
                },
            }
            i = i + 1;
        }
        assert(out.deep_view() =~= self.deep_view().u32_items()->0);
        Some(out)
    }

    /// The strings of an array whose items are all strings, copied.
    pub fn as_text_items(&self) -> (r: Option<Vec<String>>)
        ensures
            r.deep_view() == self.deep_view().text_items(),
    {
        let items = match self.as_array() {
            Some(items) => items,
            None => return None,
        };
        let ghost all = self.deep_view()->Array_0;
        let mut out: Vec<String> = Vec::new();
        let mut i: usize = 0;
        while i < items.len()
            invariant
                i <= items.len(),
                all == items.deep_view(),
                self.deep_view() == JsonValue::Array(all),
                out@.len() == i,
                forall|j: int| 0 <= j < i ==> (#[trigger] all[j]).text() == Some(out@[j]@),
            decreases items.len() - i,
        {
            assert(all[i as int] == items@[i as int].deep_view());
            match items[i].as_text() {
                Some(s) => {
                    out.push(s.clone());
                },
                None => {
                    return None;
                },
            }
            i = i + 1;
        }
        assert(out.deep_view() =~= self.deep_view().text_items()->0);
        Some(out)
    }

    /// The optional list of unsigned numbers of 32 bits under `key`.
    pub fn optional_u32_items_at(&self, key: &str) -> (r: Optional<Vec<u32>>)
        ensures
            match r {
                Optional::Absent => self.deep_view().field(key@) is None,
                Optional::Present(v) => self.deep_view().field(key@) is Some
                    && self.deep_view().optional_u32_items_at(key@) == Some(v.deep_view()),
                Optional::Unfit => !self.deep_view().u32_items_fit(key@),
            },
    {
        match self.field(key) {
            None => Optional::Absent,
            Some(v) => match v.as_u32_items() {
                Some(items) => Optional::Present(items),
                None => Optional::Unfit,
            },
        }
    }

    /// The optional list of strings under `key`, copied.
    pub fn optional_text_items_at(&self, key: &str) -> (r: Optional<Vec<String>>)
        ensures
            match r {
                Optional::Absent => self.deep_view().field(key@) is None,
                Optional::Present(v) => self.deep_view().field(key@) is Some
                    && self.deep_view().optional_text_items_at(key@) == Some(v.deep_view()),
                Optional::Unfit => !self.deep_view().text_items_fit(key@),
            },
    {
        match self.field(key) {
            None => Optional::Absent,
            Some(v) => match v.as_text_items() {
                Some(items) => Optional::Present(items),
                None => Optional::Unfit,
            },
        }
    }
}

impl Json {
    /// A copy of this value.
    pub fn duplicate(&self) -> (r: Json)
        ensures
            r.deep_view() == self.deep_view(),
        decreases self,
    {
        match self {
            Json::Null => Json::Null,
            Json::Bool(b) => Json::Bool(*b),
            Json::Number(n) => Json::Number(n.clone()),
            Json::Text(s) => Json::Text(s.clone()),
            Json::Array(items) => {
                let mut out: Vec<Json> = Vec::new();
                let mut i: usize = 0;
                while i < items.len()
                    invariant
                        i <= items.len(),
                        *self == Json::Array(*items),
                        out@.len() == i,
                        forall|j: int|
                            0 <= j < i ==> (#[trigger] out@[j]).deep_view()
                                == items@[j].deep_view(),
                    decreases items.len() - i,
                {
                    proof {
                        vstd::std_specs::vec::axiom_vec_index_decreases(*items, i as int);
                        assert(decreases_to!(self => self->Array_0));
                    }
                    out.push(items[i].duplicate());
                    i = i + 1;
                }
                let copy = Json::Array(out);
                assert(copy.deep_view()->Array_0 =~= self.deep_view()->Array_0);
                copy
            },
            Json::Object(members) => {
                let mut out: Vec<Member> = Vec::new();
                let mut i: usize = 0;
                while i < members.len()
                    invariant
                        i <= members.len(),
                        *self == Json::Object(*members),
                        out@.len() == i,
                        forall|j: int|
                            0 <= j < i ==> (#[trigger] out@[j]).deep_view()
                                == members@[j].deep_view(),
                    decreases members.len() - i,
                {
                    proof {
                        vstd::std_specs::vec::axiom_vec_index_decreases(*members, i as int);
                        assert(decreases_to!(self => self->Object_0));
                        assert(decreases_to!(members@[i as int] => members@[i as int].value));
                    }
                    let name = members[i].name.clone();
                    let value = members[i].value.duplicate();
                    out.push(Member { name, value });
                    i = i + 1;
                }
                let copy = Json::Object(out);
                assert(copy.deep_view()->Object_0 =~= self.deep_view()->Object_0);
                copy
            },
        }
    }
}

/// A copy of the members of an object.
pub fn duplicate_members(members: &Vec<Member>) -> (r: Vec<Member>)
    ensures
        r.deep_view() == members.deep_view(),
{
    let mut out: Vec<Member> = Vec::new();
    let mut i: usize = 0;
    while i < members.len()
        invariant
            i <= members.len(),
            out@.len() == i,
            forall|j: int|
                0 <= j < i ==> (#[trigger] out@[j]).deep_view() == members@[j].deep_view(),
        decreases members.len() - i,
    {
        let name = members[i].name.clone();
        let value = members[i].value.duplicate();
        out.push(Member { name, value });
        i = i + 1;
    }
    assert(out.deep_view() =~= members.deep_view());
    out
}

/// A copy of a list of strings.
pub fn duplicate_texts(texts: &Vec<String>) -> (r: Vec<String>)
    ensures
        r.deep_view() == texts.deep_view(),
{
    let mut out: Vec<String> = Vec::new();
    let mut i: usize = 0;
    while i < texts.len()
        invariant
            i <= texts.len(),
            out@.len() == i,
            forall|j: int| 0 <= j < i ==> (#[trigger] out@[j])@ == texts@[j]@,
        decreases texts.len() - i,
    {
        out.push(texts[i].clone());
        i = i + 1;
    }
    assert(out.deep_view() =~= texts.deep_view());
    out
}

/// A copy of a list of numbers.
pub fn duplicate_numbers(numbers: &Vec<u32>) -> (r: Vec<u32>)
    ensures
        r@ == numbers@,
{
    let mut out: Vec<u32> = Vec::new();
    let mut i: usize = 0;
    while i < numbers.len()
        invariant
            i <= numbers.len(),
            out@ == numbers@.take(i as int),
        decreases numbers.len() - i,
    {
        out.push(numbers[i]);
        assert(numbers@.take(i + 1) == numbers@.take(i as int).push(numbers@[i as int]));
        i = i + 1;
    }
    assert(numbers@.take(numbers.len() as int) == numbers@);
    out
}

impl Member {
    /// The member with the given name and value.
    pub fn new(name: &str, value: Json) -> (m: Member)
        ensures
            m.deep_view() == JsonValue::entry(name@, value.deep_view()),
    {
        Member { name: String::from_str(name), value }
    }
}

impl Json {
    /// The string with the given characters.
    pub fn text(s: &str) -> (doc: Json)
        ensures
            doc.deep_view() == JsonValue::Text(s@),
    {
        Json::Text(String::from_str(s))
    }

    /// The string, or `null` where there is none.
    pub fn optional_text(text: &Option<String>) -> (doc: Json)
        ensures
            doc.deep_view() == JsonValue::optional_text(text.deep_view()),
    {
        match text {
            Some(s) => Json::Text(s.clone()),
            None => Json::Null,
        }
    }

    /// The boolean, or `null` where there is none.
    pub fn optional_bool(b: Option<bool>) -> (doc: Json)
        ensures
            doc.deep_view() == JsonValue::optional_bool(b),
    {
        match b {
            Some(b) => Json::Bool(b),
            None => Json::Null,
        }
    }

    /// The array of the given strings.
    pub fn texts(texts: &Vec<String>) -> (doc: Json)
        ensures
            doc.deep_view() == JsonValue::texts(texts.deep_view()),
    {
        let mut items: Vec<Json> = Vec::new();
        let mut i: usize = 0;
        while i < texts.len()
            invariant
                i <= texts.len(),
                items@.len() == i,
                forall|j: int|
                    0 <= j < i ==> (#[trigger] items@[j]).deep_view() == JsonValue::Text(
                        texts@[j]@,
                    ),
            decreases texts.len() - i,
        {
            items.push(Json::Text(texts[i].clone()));
            i = i + 1;
        }
        let doc = Json::Array(items);
        assert(doc.deep_view()->Array_0 =~= JsonValue::texts(texts.deep_view())->Array_0);
        doc
    }

    /// The array of the given strings, or `null` where there is none.
    pub fn optional_texts(texts: &Option<Vec<String>>) -> (doc: Json)
        ensures
            doc.deep_view() == JsonValue::optional_texts(texts.deep_view()),
    {
        match texts {
            Some(t) => Json::texts(t),
            None => Json::Null,
        }
    }

    /// The object of the given members.
    pub fn object(members: Vec<Member>) -> (doc: Json)
        ensures
            doc.deep_view() == JsonValue::Object(members.deep_view()),
    {
        let doc = Json::Object(members);
        assert(doc.deep_view()->Object_0 =~= members.deep_view());
        doc
    }

    /// The array of the given items.
    pub fn array(items: Vec<Json>) -> (doc: Json)
        ensures
            doc.deep_view() == JsonValue::Array(items.deep_view()),
    {
        let doc = Json::Array(items);
        assert(doc.deep_view()->Array_0 =~= items.deep_view());
        doc
    }

    /// The object of the given members, copied, or `null` where there is
    /// none.
    pub fn optional_object(members: &Option<Vec<Member>>) -> (doc: Json)
        ensures
            doc.deep_view() == JsonValue::optional_object(members.deep_view()),
    {
        match members {
            Some(m) => Json::object(duplicate_members(m)),
            None => Json::Null,
        }
    }
}

/// The bytes that `serde_json` writes for a document; `None` where it
/// refuses the document, as it does a number whose text no JSON number has.
pub uninterp spec fn rendering(doc: JsonValue) -> Option<Seq<u8>>;

/// Hands a [`Json`] to `serde_json::to_vec` as a `serde_json::Value`. The
/// contract gives the outcome a name: the bytes written are the rendering
/// of the document. Of the bytes themselves nothing is stated; `serde_json`
/// writes the members of an object ordered by name, each name once.
#[verifier::external_body]
fn write_document(doc: &Json) -> (r: Result<Vec<u8>, String>)
    ensures
        match r {
            Ok(bytes) => rendering(doc.deep_view()) == Some(bytes@),
            Err(_) => rendering(doc.deep_view()) is None,
        },
{
    match tree_of(doc) {
        Ok(tree) => serde_json::to_vec(&tree).map_err(|e| e.to_string()),
        Err(message) => Err(message),
    }
}

/// Copies a [`Json`] into a `serde_json::Value`, variant by variant. The
/// text of a number goes through `serde_json`'s own number parser, which
/// may refuse it.
#[verifier::external_body]
fn tree_of(doc: &Json) -> Result<Value, String> {
    match doc {
        Json::Null => Ok(Value::Null),
        Json::Bool(b) => Ok(Value::Bool(*b)),
        Json::Number(n) => n.parse().map(Value::Number).map_err(
            |e: serde_json::Error| e.to_string(),
        ),
        Json::Text(s) => Ok(Value::String(s.clone())),
        Json::Array(items) => items.iter().map(tree_of).collect::<Result<_, _>>().map(
            Value::Array,
        ),
        Json::Object(members) => members.iter().map(
            |m| Ok((m.name.clone(), tree_of(&m.value)?)),
        ).collect::<Result<_, String>>().map(Value::Object),
    }
}

impl Json {
    /// Writes the document as JSON text.
    ///
    /// Fails with `ClientCreation`, as a request that cannot be built does,
    /// exactly where the document has no rendering.
    pub fn to_bytes(&self) -> (r: Result<Vec<u8>, Error>)
        ensures
            match r {
                Ok(bytes) => rendering(self.deep_view()) == Some(bytes@),
                Err(e) => rendering(self.deep_view()) is None && e.kind()
                    == ErrorKind::ClientCreation,
            },
    {
        match write_document(self) {
            Ok(bytes) => Ok(bytes),
            Err(message) => Err(Error::ClientCreation(message)),
        }
    }
}

} // verus!
