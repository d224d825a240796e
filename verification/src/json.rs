//! JSON text, and JSON values read from the API.

use crate::digest;
use crate::number::{self, decimal_text, signed_decimal_text};
use crate::text::{self, same_text};
use vstd::prelude::*;
use vstd::string::*;

verus! {

/// The error of the JSON encoder.
#[verifier::external_type_specification]
#[verifier::external_body]
pub struct ExJsonError(serde_json::Error);

/// One character inside a JSON string.
pub open spec fn escaped_char(c: char) -> Seq<char> {
    let code = c as int;
    if c == '"' {
        seq!['\\', '"']
    } else if c == '\\' {
        seq!['\\', '\\']
    } else if code == 8 {
        seq!['\\', 'b']
    } else if code == 9 {
        seq!['\\', 't']
    } else if code == 10 {
        seq!['\\', 'n']
    } else if code == 12 {
        seq!['\\', 'f']
    } else if code == 13 {
        seq!['\\', 'r']
    } else if code < 32 {
        seq!['\\', 'u', '0', '0', digest::hex_digit(code / 16), digest::hex_digit(code % 16)]
    } else {
        seq![c]
    }
}

/// The characters of `text` as they stand inside a JSON string.
pub open spec fn escaped(text: Seq<char>) -> Seq<char>
    decreases text.len(),
{
    if text.len() == 0 {
        Seq::empty()
    } else {
        escaped_char(text[0]) + escaped(text.skip(1))
    }
}

/// `text` as a JSON string.
pub open spec fn quoted(text: Seq<char>) -> Seq<char> {
    seq!['"'] + escaped(text) + seq!['"']
}

/// Calls `serde_json::to_string` on a string. Trusted: the result is the text
/// between double quotes, with the quote, the backslash and the control
/// characters below U+0020 escaped and every other character as it is.
#[verifier::external_body]
fn quote(text: &str) -> (result: String)
    ensures
        result@ == quoted(text@),
{
    serde_json::to_string(text).unwrap_or_default()
}

/// Texts with a comma between each two.
pub open spec fn joined(parts: Seq<Seq<char>>) -> Seq<char>
    decreases parts.len(),
{
    if parts.len() == 0 {
        Seq::empty()
    } else if parts.len() == 1 {
        parts[0]
    } else {
        joined(parts.drop_last()) + ","@ + parts.last()
    }
}

/// Appends one more member to a comma-separated list that has `count` so far.
fn push_member(out: &mut String, count: usize, part: &str, Ghost(parts): Ghost<Seq<Seq<char>>>)
    requires
        parts.len() == count,
        old(out)@ == joined(parts),
    ensures
        final(out)@ == joined(parts.push(part@)),
{
    if count > 0 {
        out.append(",");
    }
    out.append(part);
    proof {
        assert(parts.push(part@).drop_last() =~= parts);
        assert(out@ =~= joined(parts.push(part@)));
    }
}

/// A JSON number.
#[derive(Debug, Clone, PartialEq, Eq)]
pub enum JsonNumber {
    Unsigned(u64),
    /// An integer below zero.
    Negative(i64),
    /// Any other number, as its shortest decimal text.
    Float(String),
}

/// What a JSON number stands for.
pub enum NumberView {
    Integer(int),
    Float(Seq<char>),
}

impl View for JsonNumber {
    type V = NumberView;

    open spec fn view(&self) -> NumberView {
        match *self {
            JsonNumber::Unsigned(value) => NumberView::Integer(value as int),
            JsonNumber::Negative(value) => NumberView::Integer(value as int),
            JsonNumber::Float(text) => NumberView::Float(text@),
        }
    }
}

/// What a number is compared by: the negative zero counts as zero.
pub open spec fn number_compared(number: NumberView) -> NumberView {
    match number {
        NumberView::Float(text) => NumberView::Float(
            if text == "-0.0"@ {
                "0.0"@
            } else {
                text
            },
        ),
        integer => integer,
    }
}

fn compared_float(text: &str) -> (result: &str)
    ensures
        NumberView::Float(result@) == number_compared(NumberView::Float(text@)),
{
    if same_text(text, "-0.0") {
        "0.0"
    } else {
        text
    }
}

fn same_number(left: &JsonNumber, right: &JsonNumber) -> (result: bool)
    ensures
        result == (number_compared(left@) == number_compared(right@)),
{
    match (left, right) {
        (JsonNumber::Float(left), JsonNumber::Float(right)) => same_text(
            compared_float(left.as_str()),
            compared_float(right.as_str()),
        ),
        (JsonNumber::Unsigned(left), JsonNumber::Unsigned(right)) => *left == *right,
        (JsonNumber::Negative(left), JsonNumber::Negative(right)) => *left == *right,
        (JsonNumber::Unsigned(left), JsonNumber::Negative(right)) => {
            *left as i128 == *right as i128
        },
        (JsonNumber::Negative(left), JsonNumber::Unsigned(right)) => {
            *left as i128 == *right as i128
        },
        _ => false,
    }
}

/// A JSON value. The members of an object read from the API are `well_keyed`: in
/// the order of their keys, each key once.
#[derive(Debug, PartialEq, Eq)]
pub enum Json {
    Null,
    Bool(bool),
    Number(JsonNumber),
    Text(String),
    Array(Vec<Json>),
    Object(Vec<(String, Json)>),
}

/// What a JSON value stands for.
pub enum JsonView {
    Null,
    Bool(bool),
    Number(NumberView),
    Text(Seq<char>),
    Array(Seq<JsonView>),
    Object(Seq<(Seq<char>, JsonView)>),
}

impl View for Json {
    type V = JsonView;

    open spec fn view(&self) -> JsonView {
        self.model()
    }
}

impl Clone for Json {
    fn clone(&self) -> (copy: Self)
        ensures
            copy@ == self@,
    {
        self.duplicate()
    }
}

impl Json {
    /// What the value stands for.
    pub open spec fn model(self) -> JsonView
        decreases self,
    {
        match self {
            Json::Null => JsonView::Null,
            Json::Bool(value) => JsonView::Bool(value),
            Json::Number(number) => JsonView::Number(number@),
            Json::Text(text) => JsonView::Text(text@),
            Json::Array(items) => JsonView::Array(
                Seq::new(
                    items@.len(),
                    |i: int|
                        if 0 <= i < items@.len() {
                            items@[i].model()
                        } else {
                            JsonView::Null
                        },
                ),
            ),
            Json::Object(members) => JsonView::Object(
                Seq::new(
                    members@.len(),
                    |i: int|
                        if 0 <= i < members@.len() {
                            (members@[i].0@, members@[i].1.model())
                        } else {
                            (Seq::empty(), JsonView::Null)
                        },
                ),
            ),
        }
    }

    /// A copy of the value.
    pub fn duplicate(&self) -> (copy: Json)
        ensures
            copy@ == self@,
        decreases self,
    {
        match self {
            Json::Null => Json::Null,
            Json::Bool(value) => Json::Bool(*value),
            Json::Number(number) => {
                let copy = match number {
                    JsonNumber::Unsigned(value) => JsonNumber::Unsigned(*value),
                    JsonNumber::Negative(value) => JsonNumber::Negative(*value),
                    JsonNumber::Float(text) => JsonNumber::Float(text.clone()),
                };
                Json::Number(copy)
            },
            Json::Text(text) => Json::Text(text.clone()),
            Json::Array(items) => {
                let mut copies: Vec<Json> = Vec::new();
                let mut i: usize = 0;
                while i < items.len()
                    invariant
                        *self == Json::Array(*items),
                        i <= items@.len(),
                        copies@.len() == i,
                        forall|k: int| 0 <= k < i ==> (#[trigger] copies@[k])@ == items@[k]@,
                    decreases items@.len() - i,
                {
                    assert(decreases_to!(self => self->Array_0@[i as int]));
                    let copy = items[i].duplicate();
                    copies.push(copy);
                    i = i + 1;
                }
                let copy = Json::Array(copies);
                assert(copy@->Array_0 =~= self@->Array_0);
                copy
            },
            Json::Object(members) => {
                let mut copies: Vec<(String, Json)> = Vec::new();
                let mut i: usize = 0;
                while i < members.len()
                    invariant
                        *self == Json::Object(*members),
                        i <= members@.len(),
                        copies@.len() == i,
                        forall|k: int|
                            0 <= k < i ==> (#[trigger] copies@[k]).0@ == members@[k].0@
                                && copies@[k].1@ == members@[k].1@,
                    decreases members@.len() - i,
                {
                    assert(decreases_to!(self => self->Object_0@[i as int].1));
                    let copy = members[i].1.duplicate();
                    copies.push((members[i].0.clone(), copy));
                    i = i + 1;
                }
                let copy = Json::Object(copies);
                assert(copy@->Object_0 =~= self@->Object_0);
                copy
            },
        }
    }
}

/// The value of the first member with this key.
pub open spec fn member_of(members: Seq<(Seq<char>, JsonView)>, key: Seq<char>) -> Option<JsonView>
    decreases members.len(),
{
    if members.len() == 0 {
        None
    } else if members[0].0 == key {
        Some(members[0].1)
    } else {
        member_of(members.skip(1), key)
    }
}

impl JsonView {
    /// The member of an object with this key.
    pub open spec fn get(self, key: Seq<char>) -> Option<JsonView> {
        match self {
            JsonView::Object(members) => member_of(members, key),
            _ => None,
        }
    }

    /// The text of a string.
    pub open spec fn text(self) -> Option<Seq<char>> {
        match self {
            JsonView::Text(text) => Some(text),
            _ => None,
        }
    }

    /// An integer between `low` and `high`.
    pub open spec fn integer_within(self, low: int, high: int) -> Option<int> {
        match self {
            JsonView::Number(NumberView::Integer(value)) => if low <= value <= high {
                Some(value)
            } else {
                None
            },
            _ => None,
        }
    }
}

/// The member at the end of a path of keys; the value itself for the empty path.
pub open spec fn member_at(value: Option<JsonView>, first: Seq<char>, second: Seq<char>) -> Option<
    JsonView,
> {
    match value {
        Some(value) => match value.get(first) {
            Some(inner) => inner.get(second),
            None => None,
        },
        None => None,
    }
}

/// What an optional borrowed value stands for.
pub open spec fn opt_model(value: Option<&Json>) -> Option<JsonView> {
    match value {
        Some(value) => Some(value@),
        None => None,
    }
}

impl Json {
    /// The member of an object with this key.
    pub fn get(&self, key: &str) -> (value: Option<&Json>)
        ensures
            opt_model(value) == self@.get(key@),
    {
        match self {
            Json::Object(members) => {
                let ghost all = self@->Object_0;
                let mut i: usize = 0;
                assert(all.skip(0) =~= all);
                while i < members.len()
                    invariant
                        *self == Json::Object(*members),
                        all == self@->Object_0,
                        i <= members@.len(),
                        member_of(all, key@) == member_of(all.skip(i as int), key@),
                    decreases members@.len() - i,
                {
                    let ghost rest = all.skip(i as int);
                    assert(rest[0] == (members@[i as int].0@, members@[i as int].1@));
                    assert(rest.skip(1) =~= all.skip(i + 1));
                    if same_text(members[i].0.as_str(), key) {
                        return Some(&members[i].1);
                    }
                    i = i + 1;
                }
                None
            },
            _ => None,
        }
    }

    /// The text of a string.
    pub fn as_str(&self) -> (text: Option<&str>)
        ensures
            match text {
                Some(text) => self@.text() == Some(text@),
                None => self@.text() is None,
            },
    {
        match self {
            Json::Text(text) => Some(text.as_str()),
            _ => None,
        }
    }

    /// An integer in the range of `u64`.
    pub fn as_u64(&self) -> (value: Option<u64>)
        ensures
            match value {
                Some(value) => self@.integer_within(0, u64::MAX as int) == Some(value as int),
                None => self@.integer_within(0, u64::MAX as int) is None,
            },
    {
        match self {
            Json::Number(JsonNumber::Unsigned(value)) => Some(*value),
            Json::Number(JsonNumber::Negative(value)) => {
                if *value >= 0 {
                    Some(*value as u64)
                } else {
                    None
                }
            },
            _ => None,
        }
    }

    /// An integer in the range of `i64`.
    pub fn as_i64(&self) -> (value: Option<i64>)
        ensures
            match value {
                Some(value) => self@.integer_within(i64::MIN as int, i64::MAX as int) == Some(
                    value as int,
                ),
                None => self@.integer_within(i64::MIN as int, i64::MAX as int) is None,
            },
    {
        match self {
            Json::Number(JsonNumber::Unsigned(value)) => {
                if *value <= 0x7fff_ffff_ffff_ffff {
                    Some(*value as i64)
                } else {
                    None
                }
            },
            Json::Number(JsonNumber::Negative(value)) => Some(*value),
            _ => None,
        }
    }

    /// Whether two values stand for the same. The two zeros among the numbers that
    /// are no integers do.
    pub fn same(&self, other: &Json) -> (result: bool)
        ensures
            result == alike(self@, other@),
        decreases self,
    {
        match (self, other) {
            (Json::Null, Json::Null) => true,
            (Json::Bool(left), Json::Bool(right)) => *left == *right,
            (Json::Number(left), Json::Number(right)) => same_number(left, right),
            (Json::Text(left), Json::Text(right)) => same_text(left.as_str(), right.as_str()),
            (Json::Array(left), Json::Array(right)) => {
                let ghost a = compared(self@)->Array_0;
                let ghost b = compared(other@)->Array_0;
                if left.len() != right.len() {
                    assert(a.len() != b.len());
                    return false;
                }
                let mut i: usize = 0;
                while i < left.len()
                    invariant
                        *self == Json::Array(*left),
                        *other == Json::Array(*right),
                        a == compared(self@)->Array_0,
                        b == compared(other@)->Array_0,
                        left@.len() == right@.len(),
                        i <= left@.len(),
                        forall|k: int| 0 <= k < i ==> a[k] == b[k],
                    decreases left@.len() - i,
                {
                    assert(decreases_to!(self => self->Array_0@[i as int]));
                    assert(a[i as int] == compared(left@[i as int]@));
                    assert(b[i as int] == compared(right@[i as int]@));
                    if !left[i].same(&right[i]) {
                        return false;
                    }
                    i = i + 1;
                }
                assert(a =~= b);
                true
            },
            (Json::Object(left), Json::Object(right)) => {
                let ghost a = compared(self@)->Object_0;
                let ghost b = compared(other@)->Object_0;
                if left.len() != right.len() {
                    assert(a.len() != b.len());
                    return false;
                }
                let mut i: usize = 0;
                while i < left.len()
                    invariant
                        *self == Json::Object(*left),
                        *other == Json::Object(*right),
                        a == compared(self@)->Object_0,
                        b == compared(other@)->Object_0,
                        left@.len() == right@.len(),
                        i <= left@.len(),
                        forall|k: int| 0 <= k < i ==> a[k] == b[k],
                    decreases left@.len() - i,
                {
                    assert(decreases_to!(self => self->Object_0@[i as int].1));
                    assert(a[i as int] == (left@[i as int].0@, compared(left@[i as int].1@)));
                    assert(b[i as int] == (right@[i as int].0@, compared(right@[i as int].1@)));
                    if !same_text(left[i].0.as_str(), right[i].0.as_str()) || !left[i].1.same(
                        &right[i].1,
                    ) {
                        return false;
                    }
                    i = i + 1;
                }
                assert(a =~= b);
                true
            },
            _ => false,
        }
    }
}

/// What a value is compared by: the value, with the negative zero as zero.
pub open spec fn compared(value: JsonView) -> JsonView
    decreases value,
{
    match value {
        JsonView::Number(number) => JsonView::Number(number_compared(number)),
        JsonView::Array(items) => JsonView::Array(
            Seq::new(
                items.len(),
                |i: int|
                    if 0 <= i < items.len() {
                        compared(items[i])
                    } else {
                        JsonView::Null
                    },
            ),
        ),
        JsonView::Object(members) => JsonView::Object(
            Seq::new(
                members.len(),
                |i: int|
                    if 0 <= i < members.len() {
                        (members[i].0, compared(members[i].1))
                    } else {
                        (Seq::empty(), JsonView::Null)
                    },
            ),
        ),
        other => other,
    }
}

/// Whether two values stand for the same.
pub open spec fn alike(a: JsonView, b: JsonView) -> bool {
    compared(a) == compared(b)
}

/// Whether two optional values stand for the same, or both are absent.
pub open spec fn opt_alike(a: Option<JsonView>, b: Option<JsonView>) -> bool {
    match (a, b) {
        (Some(a), Some(b)) => alike(a, b),
        (None, None) => true,
        _ => false,
    }
}

/// A number in JSON form.
pub open spec fn number_text(number: NumberView) -> Seq<char> {
    match number {
        NumberView::Integer(value) => number::signed_decimal(value),
        NumberView::Float(text) => text,
    }
}

/// The items of an array in JSON form.
pub open spec fn items_texts(items: Seq<JsonView>) -> Seq<Seq<char>>
    decreases items,
{
    Seq::new(
        items.len(),
        |i: int|
            if 0 <= i < items.len() {
                value_text(items[i])
            } else {
                Seq::empty()
            },
    )
}

/// The members of an object in JSON form.
pub open spec fn members_texts(members: Seq<(Seq<char>, JsonView)>) -> Seq<Seq<char>>
    decreases members,
{
    Seq::new(
        members.len(),
        |i: int|
            if 0 <= i < members.len() {
                quoted(members[i].0) + ":"@ + value_text(members[i].1)
            } else {
                Seq::empty()
            },
    )
}

/// A value as compact JSON.
pub open spec fn value_text(value: JsonView) -> Seq<char>
    decreases value,
{
    match value {
        JsonView::Null => "null"@,
        JsonView::Bool(true) => "true"@,
        JsonView::Bool(false) => "false"@,
        JsonView::Number(number) => number_text(number),
        JsonView::Text(text) => quoted(text),
        JsonView::Array(items) => "["@ + joined(items_texts(items)) + "]"@,
        JsonView::Object(members) => "{"@ + joined(members_texts(members)) + "}"@,
    }
}

impl Json {
    /// The value as compact JSON.
    pub fn to_text(&self) -> (result: String)
        ensures
            result@ == value_text(self@),
        decreases self,
    {
        match self {
            Json::Null => "null".to_owned(),
            Json::Bool(value) => {
                if *value {
                    "true".to_owned()
                } else {
                    "false".to_owned()
                }
            },
            Json::Number(number) => match number {
                JsonNumber::Unsigned(value) => decimal_text(*value),
                JsonNumber::Negative(value) => signed_decimal_text(*value),
                JsonNumber::Float(text) => text.clone(),
            },
            Json::Text(text) => quote(text.as_str()),
            Json::Array(items) => {
                let ghost model = self@->Array_0;
                let ghost parts = items_texts(model);
                let mut members = String::new();
                let mut i: usize = 0;
                assert(parts.take(0) =~= Seq::empty());
                while i < items.len()
                    invariant
                        *self == Json::Array(*items),
                        model == self@->Array_0,
                        parts == items_texts(model),
                        i <= items@.len(),
                        members@ == joined(parts.take(i as int)),
                    decreases items@.len() - i,
                {
                    assert(decreases_to!(self => self->Array_0@[i as int]));
                    assert(model[i as int] == items@[i as int]@);
                    let part = items[i].to_text();
                    push_member(&mut members, i, part.as_str(), Ghost(parts.take(i as int)));
                    assert(parts[i as int] == part@);
                    assert(parts.take(i as int).push(part@) =~= parts.take(i + 1));
                    i = i + 1;
                }
                assert(parts.take(items@.len() as int) =~= parts);
                text::concat3("[", members.as_str(), "]")
            },
            Json::Object(entries) => {
                let ghost model = self@->Object_0;
                let ghost parts = members_texts(model);
                let mut members = String::new();
                let mut i: usize = 0;
                assert(parts.take(0) =~= Seq::empty());
                while i < entries.len()
                    invariant
                        *self == Json::Object(*entries),
                        model == self@->Object_0,
                        parts == members_texts(model),
                        i <= entries@.len(),
                        members@ == joined(parts.take(i as int)),
                    decreases entries@.len() - i,
                {
                    assert(decreases_to!(self => self->Object_0@[i as int].1));
                    assert(model[i as int] == (entries@[i as int].0@, entries@[i as int].1@));
                    let key = quote(entries[i].0.as_str());
                    let value = entries[i].1.to_text();
                    let part = text::concat3(key.as_str(), ":", value.as_str());
                    push_member(&mut members, i, part.as_str(), Ghost(parts.take(i as int)));
                    assert(parts[i as int] == part@);
                    assert(parts.take(i as int).push(part@) =~= parts.take(i + 1));
                    i = i + 1;
                }
                assert(parts.take(entries@.len() as int) =~= parts);
                text::concat3("{", members.as_str(), "}")
            },
        }
    }
}

/// The members of an object that hold anything besides empty objects.
pub open spec fn pruned_members(members: Seq<(Seq<char>, JsonView)>) -> Seq<(Seq<char>, JsonView)>
    decreases members, 0int,
{
    if members.len() == 0 {
        Seq::empty()
    } else {
        let rest = pruned_members(members.drop_last());
        match pruned(members.last().1) {
            Some(kept) => rest.push((members.last().0, kept)),
            None => rest,
        }
    }
}

/// A value without the objects in it that hold nothing; nothing at all where
/// that leaves an empty object.
pub open spec fn pruned(value: JsonView) -> Option<JsonView>
    decreases value, 1int,
{
    match value {
        JsonView::Object(members) => {
            let kept = pruned_members(members);
            if kept.len() == 0 {
                None
            } else {
                Some(JsonView::Object(kept))
            }
        },
        _ => Some(value),
    }
}

/// The value of an optional owned JSON value.
pub open spec fn opt_owned(value: Option<Json>) -> Option<JsonView> {
    match value {
        Some(value) => Some(value@),
        None => None,
    }
}

impl Json {
    /// The value without the objects in it that hold nothing.
    pub fn prune(&self) -> (kept: Option<Json>)
        ensures
            opt_owned(kept) == pruned(self@),
        decreases self,
    {
        match self {
            Json::Object(members) => {
                let ghost model = self@->Object_0;
                let mut kept: Vec<(String, Json)> = Vec::new();
                let mut i: usize = 0;
                assert(Json::Object(kept)@->Object_0 =~= pruned_members(model.take(0)));
                while i < members.len()
                    invariant
                        *self == Json::Object(*members),
                        model == self@->Object_0,
                        i <= members@.len(),
                        Json::Object(kept)@->Object_0 == pruned_members(model.take(i as int)),
                    decreases members@.len() - i,
                {
                    let ghost before = Json::Object(kept)@->Object_0;
                    assert(decreases_to!(self => self->Object_0@[i as int].1));
                    assert(model[i as int] == (members@[i as int].0@, members@[i as int].1@));
                    assert(model.take(i + 1).drop_last() =~= model.take(i as int));
                    match members[i].1.prune() {
                        Some(value) => {
                            kept.push((members[i].0.clone(), value));
                            assert(Json::Object(kept)@->Object_0 =~= before.push(
                                (members@[i as int].0@, value@),
                            ));
                        },
                        None => {},
                    }
                    i = i + 1;
                }
                assert(model.take(members@.len() as int) =~= model);
                assert(Json::Object(kept)@->Object_0.len() == kept@.len());
                if kept.len() == 0 {
                    None
                } else {
                    Some(Json::Object(kept))
                }
            },
            other => Some(other.duplicate()),
        }
    }
}

/// What a list of JSON values stands for.
pub open spec fn views(values: Seq<Json>) -> Seq<JsonView> {
    values.map_values(|value: Json| value@)
}

/// What an optional list of JSON values is compared by.
pub open spec fn opt_compared(values: Option<Vec<Json>>) -> Option<Seq<JsonView>> {
    match values {
        Some(values) => Some(values@.map_values(|value: Json| compared(value@))),
        None => None,
    }
}

/// Whether two optional values are the same.
pub fn same_opt(a: &Option<Json>, b: &Option<Json>) -> (same: bool)
    ensures
        same == opt_alike(opt_owned(*a), opt_owned(*b)),
{
    match (a, b) {
        (Some(left), Some(right)) => left.same(right),
        (None, None) => true,
        _ => false,
    }
}

/// Whether two optional borrowed values are the same.
pub fn same_opt_ref(a: Option<&Json>, b: Option<&Json>) -> (same: bool)
    ensures
        same == opt_alike(opt_model(a), opt_model(b)),
{
    match (a, b) {
        (Some(left), Some(right)) => left.same(right),
        (None, None) => true,
        _ => false,
    }
}

/// Whether two optional lists hold the same values in the same order.
pub fn same_opt_list(a: &Option<Vec<Json>>, b: &Option<Vec<Json>>) -> (same: bool)
    ensures
        same == (opt_compared(*a) == opt_compared(*b)),
{
    match (a, b) {
        (Some(left), Some(right)) => {
            let ghost first = opt_compared(*a)->0;
            let ghost second = opt_compared(*b)->0;
            if left.len() != right.len() {
                assert(first.len() != second.len());
                return false;
            }
            let mut i: usize = 0;
            while i < left.len()
                invariant
                    left@.len() == right@.len(),
                    i <= left@.len(),
                    *a == Some(*left),
                    *b == Some(*right),
                    first == opt_compared(*a)->0,
                    second == opt_compared(*b)->0,
                    forall|k: int| 0 <= k < i ==> first[k] == second[k],
                decreases left@.len() - i,
            {
                if !left[i].same(&right[i]) {
                    assert(first[i as int] != second[i as int]);
                    return false;
                }
                i = i + 1;
            }
            assert(first =~= second);
            true
        },
        (None, None) => true,
        _ => false,
    }
}

impl Json {
    /// A JSON string.
    pub fn string(text: &str) -> (value: Json)
        ensures
            value@ == JsonView::Text(text@),
    {
        Json::Text(text.to_owned())
    }

    /// A JSON integer.
    pub fn integer(value: i64) -> (number: Json)
        ensures
            number@ == JsonView::Number(NumberView::Integer(value as int)),
    {
        if value < 0 {
            Json::Number(JsonNumber::Negative(value))
        } else {
            Json::Number(JsonNumber::Unsigned(value as u64))
        }
    }

    /// A JSON array of strings.
    pub fn strings(values: &[String]) -> (array: Json)
        ensures
            array@ == JsonView::Array(text_views(text::texts(values@))),
    {
        let mut items: Vec<Json> = Vec::new();
        let mut i: usize = 0;
        while i < values.len()
            invariant
                i <= values@.len(),
                items@.len() == i,
                forall|k: int| 0 <= k < i ==> (#[trigger] items@[k])@ == JsonView::Text(values@[k]@),
            decreases values@.len() - i,
        {
            items.push(Json::string(values[i].as_str()));
            i = i + 1;
        }
        let array = Json::Array(items);
        assert(array@->Array_0 =~= text_views(text::texts(values@)));
        array
    }

    /// A JSON array of these values.
    pub fn array(items: Vec<Json>) -> (array: Json)
        ensures
            array@ == JsonView::Array(views(items@)),
    {
        let ghost model = views(items@);
        let array = Json::Array(items);
        assert(array@->Array_0 =~= model);
        array
    }

    /// An object with one member.
    pub fn object1(key: &str, value: Json) -> (object: Json)
        ensures
            object@ == JsonView::Object(seq![(key@, value@)]),
    {
        let ghost model = seq![(key@, value@)];
        let object = Json::Object(vec![(key.to_owned(), value)]);
        assert(object@->Object_0 =~= model);
        object
    }

    /// An object with two members.
    pub fn object2(key1: &str, value1: Json, key2: &str, value2: Json) -> (object: Json)
        ensures
            object@ == JsonView::Object(seq![(key1@, value1@), (key2@, value2@)]),
    {
        let ghost model = seq![(key1@, value1@), (key2@, value2@)];
        let object = Json::Object(vec![(key1.to_owned(), value1), (key2.to_owned(), value2)]);
        assert(object@->Object_0 =~= model);
        object
    }

    /// An object with three members.
    pub fn object3(
        key1: &str,
        value1: Json,
        key2: &str,
        value2: Json,
        key3: &str,
        value3: Json,
    ) -> (object: Json)
        ensures
            object@ == JsonView::Object(
                seq![(key1@, value1@), (key2@, value2@), (key3@, value3@)],
            ),
    {
        let ghost model = seq![(key1@, value1@), (key2@, value2@), (key3@, value3@)];
        let object = Json::Object(
            vec![
                (key1.to_owned(), value1),
                (key2.to_owned(), value2),
                (key3.to_owned(), value3),
            ],
        );
        assert(object@->Object_0 =~= model);
        object
    }

    /// The object with one more member at its end; a value that is no object is
    /// left as it is.
    pub fn with_member(self, key: &str, value: Json) -> (object: Json)
        ensures
            object@ == (match self@ {
                JsonView::Object(members) => JsonView::Object(members.push((key@, value@))),
                other => other,
            }),
    {
        let ghost before = self@;
        match self {
            Json::Object(members) => {
                let mut members = members;
                let ghost model = before->Object_0.push((key@, value@));
                members.push((key.to_owned(), value));
                let object = Json::Object(members);
                assert(object@->Object_0 =~= model);
                object
            },
            other => other,
        }
    }

    /// The object with one more text member at its end, where there is a value.
    pub fn with_optional(self, key: &str, value: &Option<String>) -> (object: Json)
        ensures
            object@ == (match self@ {
                JsonView::Object(members) => JsonView::Object(
                    members + optional_member(key@, text::opt_text(*value)),
                ),
                other => other,
            }),
    {
        let ghost before = self@;
        let object = match value {
            Some(value) => self.with_member(key, Json::string(value.as_str())),
            None => self,
        };
        assert(before is Object ==> object@->Object_0 =~= before->Object_0 + optional_member(
            key@,
            text::opt_text(*value),
        ));
        object
    }
}

/// An integer as JSON.
pub open spec fn integer(value: int) -> JsonView {
    JsonView::Number(NumberView::Integer(value))
}

/// A text member that is left out where there is no value.
pub open spec fn optional_member(key: Seq<char>, value: Option<Seq<char>>) -> Seq<
    (Seq<char>, JsonView),
> {
    match value {
        Some(value) => seq![(key, JsonView::Text(value))],
        None => Seq::empty(),
    }
}

/// Texts as JSON strings.
pub open spec fn text_views(values: Seq<Seq<char>>) -> Seq<JsonView> {
    values.map_values(|value: Seq<char>| JsonView::Text(value))
}

} // verus!
