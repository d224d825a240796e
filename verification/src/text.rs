//! Text handling that the resource rules share.

use vstd::prelude::*;
use vstd::string::*;
use vstd::utf8::*;

verus! {

/// The text of an optional string.
pub open spec fn opt_text(value: Option<String>) -> Option<Seq<char>> {
    match value {
        Some(text) => Some(text@),
        None => None,
    }
}

/// The texts of a list of strings.
pub open spec fn texts(values: Seq<String>) -> Seq<Seq<char>> {
    values.map_values(|value: String| value@)
}

/// Whether two texts are the same.
pub fn same_text(a: &str, b: &str) -> (same: bool)
    ensures
        same == (a@ == b@),
{
    let left = a.as_bytes();
    let right = b.as_bytes();
    proof {
        encode_utf8_decode_utf8(a@);
        encode_utf8_decode_utf8(b@);
    }
    if left.len() != right.len() {
        return false;
    }
    let mut i: usize = 0;
    while i < left.len()
        invariant
            left@ == a.spec_bytes(),
            right@ == b.spec_bytes(),
            left@.len() == right@.len(),
            i <= left@.len(),
            forall|k: int| 0 <= k < i ==> left@[k] == right@[k],
        decreases left@.len() - i,
    {
        if left[i] != right[i] {
            return false;
        }
        i = i + 1;
    }
    assert(left@ =~= right@);
    true
}

/// Whether an optional string holds exactly `text`.
pub fn holds_text(value: &Option<String>, text: &str) -> (holds: bool)
    ensures
        holds == (opt_text(*value) == Some(text@)),
{
    match value {
        Some(held) => same_text(held.as_str(), text),
        None => false,
    }
}

/// Whether two optional strings hold the same text, or neither holds any.
pub fn same_opt_text(a: &Option<String>, b: &Option<String>) -> (same: bool)
    ensures
        same == (opt_text(*a) == opt_text(*b)),
{
    match (a, b) {
        (Some(left), Some(right)) => same_text(left.as_str(), right.as_str()),
        (None, None) => true,
        _ => false,
    }
}

/// Whether `text` is one of `values`.
pub fn contains_text(values: &[String], text: &str) -> (found: bool)
    ensures
        found == texts(values@).contains(text@),
{
    let mut i: usize = 0;
    while i < values.len()
        invariant
            i <= values@.len(),
            forall|k: int| 0 <= k < i ==> values@[k]@ != text@,
        decreases values@.len() - i,
    {
        if same_text(values[i].as_str(), text) {
            assert(texts(values@)[i as int] == text@);
            return true;
        }
        i = i + 1;
    }
    assert(!texts(values@).contains(text@)) by {
        if texts(values@).contains(text@) {
            let k = choose|k: int| 0 <= k < texts(values@).len() && texts(values@)[k] == text@;
            assert(values@[k]@ == text@);
        }
    }
    false
}

/// Whether two lists hold the same texts in the same order.
pub fn same_texts(a: &[String], b: &[String]) -> (same: bool)
    ensures
        same == (texts(a@) == texts(b@)),
{
    if a.len() != b.len() {
        assert(texts(a@).len() != texts(b@).len());
        return false;
    }
    let mut i: usize = 0;
    while i < a.len()
        invariant
            a@.len() == b@.len(),
            i <= a@.len(),
            forall|k: int| 0 <= k < i ==> a@[k]@ == b@[k]@,
        decreases a@.len() - i,
    {
        if !same_text(a[i].as_str(), b[i].as_str()) {
            assert(texts(a@)[i as int] != texts(b@)[i as int]);
            return false;
        }
        i = i + 1;
    }
    assert(texts(a@) =~= texts(b@));
    true
}

/// Characters with the Unicode `White_Space` property.
pub open spec fn is_white_space(c: char) -> bool {
    let code = c as u32;
    ||| 0x9 <= code <= 0xd
    ||| code == 0x20
    ||| code == 0x85
    ||| code == 0xa0
    ||| code == 0x1680
    ||| 0x2000 <= code <= 0x200a
    ||| code == 0x2028
    ||| code == 0x2029
    ||| code == 0x202f
    ||| code == 0x205f
    ||| code == 0x3000
}

/// Text with nothing in it but white space.
pub open spec fn is_blank(text: Seq<char>) -> bool {
    forall|i: int| 0 <= i < text.len() ==> is_white_space(#[trigger] text[i])
}

/// Whether `text` holds nothing but white space.
pub fn blank(text: &str) -> (result: bool)
    ensures
        result == is_blank(text@),
{
    for c in chars: text.chars()
        invariant
            chars.seq() == text@,
            forall|k: int| 0 <= k < chars.index() ==> is_white_space(#[trigger] text@[k]),
    {
        let code: u32 = c as u32;
        let white: bool = (0x9 <= code && code <= 0xd) || code == 0x20 || code == 0x85 || code
            == 0xa0 || code == 0x1680 || (0x2000 <= code && code <= 0x200a) || code == 0x2028
            || code == 0x2029 || code == 0x202f || code == 0x205f || code == 0x3000;
        if !white {
            assert(!is_white_space(text@[chars.index() as int]));
            return false;
        }
    }
    true
}

/// `a` followed by `b`.
pub fn concat(a: &str, b: &str) -> (joined: String)
    ensures
        joined@ == a@ + b@,
{
    let mut joined = a.to_owned();
    joined.append(b);
    joined
}

/// The three texts in order.
pub fn concat3(a: &str, b: &str, c: &str) -> (joined: String)
    ensures
        joined@ == a@ + b@ + c@,
{
    let mut joined = a.to_owned();
    joined.append(b);
    joined.append(c);
    joined
}

/// The characters of `text`.
pub fn chars_of(text: &str) -> (result: Vec<char>)
    ensures
        result@ == text@,
{
    let mut result: Vec<char> = Vec::new();
    for c in chars: text.chars()
        invariant
            chars.seq() == text@,
            result@ =~= text@.take(chars.index() as int),
    {
        result.push(c);
    }
    assert(text@.take(text@.len() as int) =~= text@);
    result
}

/// Whether the first characters of `text` are those of `prefix`.
pub open spec fn starts_with(text: Seq<char>, prefix: Seq<char>) -> bool {
    prefix.len() <= text.len() && text.take(prefix.len() as int) == prefix
}

/// What follows `prefix` in `text`, where `text` starts with it.
pub fn strip_prefix<'a>(text: &'a str, prefix: &str) -> (rest: Option<&'a str>)
    ensures
        rest is Some <==> starts_with(text@, prefix@),
        rest matches Some(rest) ==> text@ == prefix@ + rest@ && rest@ == text@.skip(
            prefix@.len() as int,
        ),
{
    let length: usize = text.unicode_len();
    let split: usize = prefix.unicode_len();
    if length < split {
        return None;
    }
    let head = text.substring_char(0, split);
    if same_text(head, prefix) {
        let rest = text.substring_char(split, length);
        assert(text@ =~= prefix@ + rest@);
        Some(rest)
    } else {
        None
    }
}

/// Whether `needle` occurs in `text` at some position.
pub open spec fn contains_at(text: Seq<char>, needle: Seq<char>, at: int) -> bool {
    0 <= at && at + needle.len() <= text.len() && text.subrange(at, at + needle.len()) == needle
}

/// Whether `needle` occurs in `text`.
pub fn contains_substring(text: &str, needle: &str) -> (found: bool)
    ensures
        found == exists|at: int| contains_at(text@, needle@, at),
{
    let length: usize = text.unicode_len();
    let width: usize = needle.unicode_len();
    if length < width {
        return false;
    }
    let mut at: usize = 0;
    while at <= length - width
        invariant
            length == text@.len(),
            width == needle@.len(),
            width <= length,
            at <= length - width + 1,
            forall|k: int| 0 <= k < at ==> !contains_at(text@, needle@, k),
        decreases length - width + 1 - at,
    {
        let window = text.substring_char(at, at + width);
        if same_text(window, needle) {
            assert(contains_at(text@, needle@, at as int));
            return true;
        }
        assert(!contains_at(text@, needle@, at as int));
        if at == length - width {
            return false;
        }
        at = at + 1;
    }
    false
}

/// The lower-case form of an ASCII letter; any other character unchanged.
pub open spec fn ascii_lower(c: char) -> char {
    if 'A' <= c <= 'Z' {
        ((c as int) + 32) as char
    } else {
        c
    }
}

/// Equality up to the case of ASCII letters.
pub open spec fn same_ignoring_ascii_case(a: Seq<char>, b: Seq<char>) -> bool {
    a.map_values(|c: char| ascii_lower(c)) == b.map_values(|c: char| ascii_lower(c))
}

fn lower_code(c: char) -> (code: u32)
    ensures
        code == ascii_lower(c) as u32,
{
    if 'A' <= c && c <= 'Z' {
        c as u32 + 32
    } else {
        c as u32
    }
}

/// Whether two texts are equal up to the case of ASCII letters.
pub fn eq_ignore_ascii_case(a: &str, b: &str) -> (same: bool)
    ensures
        same == same_ignoring_ascii_case(a@, b@),
{
    let left = chars_of(a);
    let right = chars_of(b);
    let ghost lower_a = a@.map_values(|c: char| ascii_lower(c));
    let ghost lower_b = b@.map_values(|c: char| ascii_lower(c));
    if left.len() != right.len() {
        assert(lower_a.len() != lower_b.len());
        return false;
    }
    let mut i: usize = 0;
    while i < left.len()
        invariant
            left@ == a@,
            right@ == b@,
            left@.len() == right@.len(),
            i <= left@.len(),
            lower_a == a@.map_values(|c: char| ascii_lower(c)),
            lower_b == b@.map_values(|c: char| ascii_lower(c)),
            forall|k: int| 0 <= k < i ==> ascii_lower(a@[k]) == ascii_lower(b@[k]),
        decreases left@.len() - i,
    {
        if lower_code(left[i]) != lower_code(right[i]) {
            assert(lower_a[i as int] != lower_b[i as int]);
            return false;
        }
        i = i + 1;
    }
    assert(lower_a =~= lower_b);
    true
}

/// An ASCII hexadecimal digit of either case.
pub open spec fn is_ascii_hex_digit(c: char) -> bool {
    '0' <= c <= '9' || 'a' <= c <= 'f' || 'A' <= c <= 'F'
}

/// The hexadecimal form of a 32-byte digest: 64 digits and nothing else.
pub open spec fn is_digest_text(text: Seq<char>) -> bool {
    text.len() == 64 && forall|i: int| 0 <= i < text.len() ==> is_ascii_hex_digit(#[trigger] text[i])
}

/// Whether `text` is a 32-byte digest in hexadecimal.
pub fn digest_shaped(text: &str) -> (result: bool)
    ensures
        result == is_digest_text(text@),
{
    let chars = chars_of(text);
    if chars.len() != 64 {
        return false;
    }
    let mut i: usize = 0;
    while i < 64
        invariant
            chars@ == text@,
            chars@.len() == 64,
            i <= 64,
            forall|k: int| 0 <= k < i ==> is_ascii_hex_digit(#[trigger] text@[k]),
        decreases 64 - i,
    {
        let c = chars[i];
        if !(('0' <= c && c <= '9') || ('a' <= c && c <= 'f') || ('A' <= c && c <= 'F')) {
            assert(!is_ascii_hex_digit(text@[i as int]));
            return false;
        }
        i = i + 1;
    }
    true
}

/// The texts of a list of pairs.
pub open spec fn pair_texts(pairs: Seq<(String, String)>) -> Seq<(Seq<char>, Seq<char>)> {
    pairs.map_values(|pair: (String, String)| (pair.0@, pair.1@))
}

/// A copy of a list of pairs.
pub fn copy_pairs(pairs: &Vec<(String, String)>) -> (copy: Vec<(String, String)>)
    ensures
        pair_texts(copy@) == pair_texts(pairs@),
{
    let mut copy: Vec<(String, String)> = Vec::new();
    let mut i: usize = 0;
    while i < pairs.len()
        invariant
            i <= pairs@.len(),
            copy@.len() == i,
            forall|k: int|
                0 <= k < i ==> (#[trigger] copy@[k]).0@ == pairs@[k].0@ && copy@[k].1@
                    == pairs@[k].1@,
        decreases pairs@.len() - i,
    {
        copy.push((pairs[i].0.clone(), pairs[i].1.clone()));
        i = i + 1;
    }
    assert(pair_texts(copy@) =~= pair_texts(pairs@));
    copy
}

/// The value of the first pair with this key.
pub open spec fn pair_value(pairs: Seq<(Seq<char>, Seq<char>)>, key: Seq<char>) -> Option<Seq<char>>
    decreases pairs.len(),
{
    if pairs.len() == 0 {
        None
    } else if pairs[0].0 == key {
        Some(pairs[0].1)
    } else {
        pair_value(pairs.skip(1), key)
    }
}

/// What an optional borrowed text holds.
pub open spec fn opt_str(value: Option<&str>) -> Option<Seq<char>> {
    match value {
        Some(text) => Some(text@),
        None => None,
    }
}

/// The value of the first pair with this key.
pub fn find_pair<'a>(pairs: &'a [(String, String)], key: &str) -> (value: Option<&'a str>)
    ensures
        opt_str(value) == pair_value(pair_texts(pairs@), key@),
{
    let ghost model = pair_texts(pairs@);
    let mut i: usize = 0;
    assert(model.skip(0) =~= model);
    while i < pairs.len()
        invariant
            model == pair_texts(pairs@),
            i <= pairs@.len(),
            pair_value(model, key@) == pair_value(model.skip(i as int), key@),
        decreases pairs@.len() - i,
    {
        assert(model.skip(i as int)[0] == model[i as int]);
        assert(model.skip(i as int).skip(1) =~= model.skip(i + 1));
        if same_text(pairs[i].0.as_str(), key) {
            return Some(pairs[i].1.as_str());
        }
        i = i + 1;
    }
    None
}

/// Whether two lists hold the same pairs in the same order.
pub fn same_pairs(a: &[(String, String)], b: &[(String, String)]) -> (same: bool)
    ensures
        same == (pair_texts(a@) == pair_texts(b@)),
{
    if a.len() != b.len() {
        assert(pair_texts(a@).len() != pair_texts(b@).len());
        return false;
    }
    let mut i: usize = 0;
    while i < a.len()
        invariant
            a@.len() == b@.len(),
            i <= a@.len(),
            forall|k: int| 0 <= k < i ==> pair_texts(a@)[k] == pair_texts(b@)[k],
        decreases a@.len() - i,
    {
        if !same_text(a[i].0.as_str(), b[i].0.as_str()) || !same_text(
            a[i].1.as_str(),
            b[i].1.as_str(),
        ) {
            assert(pair_texts(a@)[i as int] != pair_texts(b@)[i as int]);
            return false;
        }
        i = i + 1;
    }
    assert(pair_texts(a@) =~= pair_texts(b@));
    true
}

/// Whether `a` comes before `b` in the order of their code points.
pub open spec fn text_less(a: Seq<char>, b: Seq<char>) -> bool
    decreases a.len(),
{
    if b.len() == 0 {
        false
    } else if a.len() == 0 {
        true
    } else if a[0] != b[0] {
        a[0] < b[0]
    } else {
        text_less(a.skip(1), b.skip(1))
    }
}

/// Whether `a` comes before `b` in the order of their code points.
pub fn comes_before(a: &str, b: &str) -> (before: bool)
    ensures
        before == text_less(a@, b@),
{
    let left = chars_of(a);
    let right = chars_of(b);
    let mut i: usize = 0;
    assert(a@.skip(0) =~= a@);
    assert(b@.skip(0) =~= b@);
    while i < left.len() && i < right.len()
        invariant
            left@ == a@,
            right@ == b@,
            i <= left@.len(),
            i <= right@.len(),
            text_less(a@, b@) == text_less(a@.skip(i as int), b@.skip(i as int)),
        decreases left@.len() - i,
    {
        assert(a@.skip(i as int)[0] == left@[i as int]);
        assert(b@.skip(i as int)[0] == right@[i as int]);
        if left[i] != right[i] {
            return left[i] < right[i];
        }
        assert(a@.skip(i as int).skip(1) =~= a@.skip(i + 1));
        assert(b@.skip(i as int).skip(1) =~= b@.skip(i + 1));
        i = i + 1;
    }
    i < right.len()
}

/// No text comes before itself.
pub proof fn lemma_text_less_irreflexive(a: Seq<char>)
    ensures
        !text_less(a, a),
    decreases a.len(),
{
    if a.len() > 0 {
        lemma_text_less_irreflexive(a.skip(1));
    }
}

/// Of two different texts one comes before the other.
pub proof fn lemma_text_less_total(a: Seq<char>, b: Seq<char>)
    requires
        a != b,
    ensures
        text_less(a, b) || text_less(b, a),
    decreases a.len(),
{
    if a.len() > 0 && b.len() > 0 && a[0] == b[0] {
        if a.skip(1) == b.skip(1) {
            assert(a =~= seq![a[0]] + a.skip(1));
            assert(b =~= seq![b[0]] + b.skip(1));
        }
        lemma_text_less_total(a.skip(1), b.skip(1));
    } else if a.len() == 0 && b.len() == 0 {
        assert(a =~= b);
    }
}

/// The order of texts is transitive.
pub proof fn lemma_text_less_transitive(a: Seq<char>, b: Seq<char>, c: Seq<char>)
    requires
        text_less(a, b),
        text_less(b, c),
    ensures
        text_less(a, c),
    decreases a.len(),
{
    if a.len() > 0 && a[0] == b[0] && b[0] == c[0] {
        lemma_text_less_transitive(a.skip(1), b.skip(1), c.skip(1));
    }
}

/// A text comes before another where they agree up to a place at which the one has
/// the lower character.
pub proof fn lemma_text_less_at(a: Seq<char>, b: Seq<char>, at: int)
    requires
        0 <= at < a.len(),
        at < b.len(),
        forall|i: int| 0 <= i < at ==> a[i] == #[trigger] b[i],
        a[at] < b[at],
    ensures
        text_less(a, b),
    decreases at,
{
    if at > 0 {
        assert(a[0] == b[0]);
        lemma_text_less_at(a.skip(1), b.skip(1), at - 1);
    }
}

/// The error text that a result reports.
pub open spec fn reported(result: Result<(), String>) -> Option<Seq<char>> {
    match result {
        Ok(_) => None,
        Err(error) => Some(error@),
    }
}

/// What an optional list of texts holds.
pub open spec fn opt_texts(values: Option<Vec<String>>) -> Option<Seq<Seq<char>>> {
    match values {
        Some(values) => Some(texts(values@)),
        None => None,
    }
}

/// Whether two optional lists hold the same texts in the same order.
pub fn same_opt_texts(a: &Option<Vec<String>>, b: &Option<Vec<String>>) -> (same: bool)
    ensures
        same == (opt_texts(*a) == opt_texts(*b)),
{
    match (a, b) {
        (Some(left), Some(right)) => same_texts(left.as_slice(), right.as_slice()),
        (None, None) => true,
        _ => false,
    }
}

/// What an optional list of pairs holds.
pub open spec fn opt_pairs(pairs: Option<Vec<(String, String)>>) -> Option<
    Seq<(Seq<char>, Seq<char>)>,
> {
    match pairs {
        Some(pairs) => Some(pair_texts(pairs@)),
        None => None,
    }
}

/// Whether two optional lists hold the same pairs in the same order.
pub fn same_opt_pairs(
    a: &Option<Vec<(String, String)>>,
    b: &Option<Vec<(String, String)>>,
) -> (same: bool)
    ensures
        same == (opt_pairs(*a) == opt_pairs(*b)),
{
    match (a, b) {
        (Some(left), Some(right)) => same_pairs(left.as_slice(), right.as_slice()),
        (None, None) => true,
        _ => false,
    }
}

/// What a result of texts holds.
pub open spec fn outcome(result: Result<String, String>) -> Result<Seq<char>, Seq<char>> {
    match result {
        Ok(value) => Ok(value@),
        Err(error) => Err(error@),
    }
}

/// Texts in order with one more, behind those that it does not come before.
pub open spec fn with_text(values: Seq<Seq<char>>, value: Seq<char>) -> Seq<Seq<char>>
    decreases values.len(),
{
    if values.len() == 0 {
        seq![value]
    } else if text_less(value, values.last()) {
        with_text(values.drop_last(), value).push(values.last())
    } else {
        values.push(value)
    }
}

/// Texts in the order of their code points.
pub open spec fn sorted(values: Seq<Seq<char>>) -> Seq<Seq<char>>
    decreases values.len(),
{
    if values.len() == 0 {
        Seq::empty()
    } else {
        with_text(sorted(values.drop_last()), values.last())
    }
}

proof fn lemma_with_text_inserts(values: Seq<Seq<char>>, value: Seq<char>, at: int)
    requires
        0 <= at <= values.len(),
        forall|k: int| at <= k < values.len() ==> text_less(value, #[trigger] values[k]),
        at > 0 ==> !text_less(value, values[at - 1]),
    ensures
        with_text(values, value) == values.insert(at, value),
    decreases values.len(),
{
    if values.len() == 0 {
        assert(values.insert(at, value) =~= seq![value]);
    } else if at == values.len() {
        assert(values.insert(at, value) =~= values.push(value));
    } else {
        let less = values.drop_last();
        assert forall|k: int| at <= k < less.len() implies text_less(value, #[trigger] less[k]) by {
            assert(less[k] == values[k]);
        }
        lemma_with_text_inserts(less, value, at);
        assert(less.insert(at, value).push(values.last()) =~= values.insert(at, value));
    }
}

/// Adds a text behind those that it does not come before.
pub fn insert_text(values: &mut Vec<String>, value: String)
    ensures
        texts(final(values)@) == with_text(texts(old(values)@), value@),
{
    let ghost model = texts(values@);
    let mut i: usize = values.len();
    while i > 0 && comes_before(value.as_str(), values[i - 1].as_str())
        invariant
            values@ == old(values)@,
            model == texts(values@),
            i <= values@.len(),
            forall|k: int| i <= k < values@.len() ==> text_less(value@, #[trigger] model[k]),
        decreases i,
    {
        assert(model[i - 1] == values@[i - 1]@);
        i = i - 1;
    }
    proof {
        if i > 0 {
            assert(model[i - 1] == values@[i - 1]@);
        }
        lemma_with_text_inserts(model, value@, i as int);
    }
    let ghost added = value@;
    values.insert(i, value);
    assert(texts(values@) =~= model.insert(i as int, added));
}

/// Whether no text comes before one that stands before it.
pub open spec fn in_order(values: Seq<Seq<char>>) -> bool {
    forall|i: int, j: int|
        0 <= i < j < values.len() ==> !text_less(#[trigger] values[j], #[trigger] values[i])
}

proof fn lemma_with_text(values: Seq<Seq<char>>, value: Seq<char>)
    requires
        in_order(values),
    ensures
        in_order(with_text(values, value)),
        with_text(values, value).to_multiset() == values.to_multiset().insert(value),
    decreases values.len(),
{
    broadcast use vstd::seq_lib::group_to_multiset_ensures;

    if values.len() == 0 {
        assert(seq![value] =~= Seq::<Seq<char>>::empty().push(value));
        assert(values =~= Seq::<Seq<char>>::empty());
    } else if text_less(value, values.last()) {
        let less = values.drop_last();
        let last = values.last();
        lemma_with_text(less, value);
        let head = with_text(less, value);
        assert(values =~= less.push(last));
        assert(head.push(last).to_multiset() =~= values.to_multiset().insert(value));
        assert forall|i: int| 0 <= i < head.len() implies !text_less(last, #[trigger] head[i]) by {
            assert(head.to_multiset().count(head[i]) > 0);
            if head[i] == value {
                if text_less(last, value) {
                    lemma_text_less_transitive(value, last, value);
                    lemma_text_less_irreflexive(value);
                }
            } else {
                assert(less.to_multiset().count(head[i]) > 0);
                assert(less.contains(head[i]));
                let k = choose|k: int| 0 <= k < less.len() && less[k] == head[i];
                assert(values[k] == head[i] && values[values.len() - 1] == last);
            }
        }
    } else {
        let result = values.push(value);
        assert forall|i: int, j: int| 0 <= i < j < result.len() implies !text_less(
            #[trigger] result[j],
            #[trigger] result[i],
        ) by {
            if j == values.len() && i < values.len() - 1 {
                let last = values.last();
                assert(values[values.len() - 1] == last && values[i] == result[i]);
                if text_less(value, result[i]) {
                    if last == result[i] {
                    } else {
                        lemma_text_less_total(last, result[i]);
                        lemma_text_less_transitive(value, result[i], last);
                    }
                }
            }
        }
    }
}

/// Sorting puts texts in order and neither adds nor drops any.
pub proof fn lemma_sorted(values: Seq<Seq<char>>)
    ensures
        in_order(sorted(values)),
        sorted(values).to_multiset() == values.to_multiset(),
    decreases values.len(),
{
    broadcast use vstd::seq_lib::group_to_multiset_ensures;

    if values.len() > 0 {
        lemma_sorted(values.drop_last());
        lemma_with_text(sorted(values.drop_last()), values.last());
        assert(values =~= values.drop_last().push(values.last()));
    } else {
        assert(values =~= Seq::<Seq<char>>::empty());
    }
}

} // verus!
