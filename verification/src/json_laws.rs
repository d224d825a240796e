//! JSON text is unambiguous: a value can be told from its text.

use crate::digest;
use crate::json;
use crate::number;
use vstd::prelude::*;

verus! {

/// Whether all numbers in a value are integers.
pub open spec fn integral(value: json::JsonView) -> bool
    decreases value,
{
    match value {
        json::JsonView::Number(number) => number is Integer,
        json::JsonView::Array(items) => forall|i: int|
            0 <= i < items.len() ==> integral(#[trigger] items[i]),
        json::JsonView::Object(members) => forall|i: int|
            0 <= i < members.len() ==> integral((#[trigger] members[i]).1),
        _ => true,
    }
}

/// Whether a text is empty or begins where a value inside a larger text ends.
pub open spec fn delimited(text: Seq<char>) -> bool {
    text.len() == 0 || text[0] == ',' || text[0] == ']' || text[0] == '}'
}

proof fn lemma_cancel(head: Seq<char>, x: Seq<char>, y: Seq<char>)
    requires
        head + x == head + y,
    ensures
        x == y,
{
    assert((head + x).skip(head.len() as int) =~= x);
    assert((head + y).skip(head.len() as int) =~= y);
}

proof fn lemma_escaped_char(c: char)
    ensures
        json::escaped_char(c).len() > 0,
        json::escaped_char(c)[0] != '"',
        json::escaped_char(c)[0] != '\\' ==> json::escaped_char(c) == seq![c],
{
}

proof fn lemma_escaped_char_prefix(a: char, x: Seq<char>, b: char, y: Seq<char>)
    requires
        json::escaped_char(a) + x == json::escaped_char(b) + y,
    ensures
        a == b,
        x == y,
{
    let ea = json::escaped_char(a);
    let eb = json::escaped_char(b);
    lemma_escaped_char(a);
    lemma_escaped_char(b);
    assert((ea + x)[0] == ea[0] && (eb + y)[0] == eb[0]);
    if ea[0] == '\\' {
        assert(ea.len() >= 2 && eb.len() >= 2);
        assert((ea + x)[1] == ea[1] && (eb + y)[1] == eb[1]);
        if ea[1] == 'u' {
            assert(ea.len() == 6 && eb.len() == 6);
            assert((ea + x)[4] == ea[4] && (eb + y)[4] == eb[4]);
            assert((ea + x)[5] == ea[5] && (eb + y)[5] == eb[5]);
            let p = a as int;
            let q = b as int;
            digest::lemma_hex_digit_injective(p / 16, q / 16);
            digest::lemma_hex_digit_injective(p % 16, q % 16);
            assert(p == q);
        }
    }
    assert(a == b);
    lemma_cancel(ea, x, y);
}

proof fn lemma_escaped_prefix(a: Seq<char>, x: Seq<char>, b: Seq<char>, y: Seq<char>)
    requires
        json::escaped(a) + seq!['"'] + x == json::escaped(b) + seq!['"'] + y,
    ensures
        a == b,
        x == y,
    decreases a.len(),
{
    let left = json::escaped(a) + seq!['"'] + x;
    let right = json::escaped(b) + seq!['"'] + y;
    if a.len() > 0 {
        lemma_escaped_char(a[0]);
        assert(left[0] == json::escaped_char(a[0])[0]);
    } else {
        assert(left[0] == '"');
    }
    if b.len() > 0 {
        lemma_escaped_char(b[0]);
        assert(right[0] == json::escaped_char(b[0])[0]);
    } else {
        assert(right[0] == '"');
    }
    if a.len() == 0 {
        assert(b.len() == 0);
        assert(a =~= b);
        assert(left =~= seq!['"'] + x && right =~= seq!['"'] + y);
        lemma_cancel(seq!['"'], x, y);
    } else {
        assert(b.len() > 0);
        let tail_a = json::escaped(a.skip(1)) + seq!['"'] + x;
        let tail_b = json::escaped(b.skip(1)) + seq!['"'] + y;
        assert(left =~= json::escaped_char(a[0]) + tail_a);
        assert(right =~= json::escaped_char(b[0]) + tail_b);
        lemma_escaped_char_prefix(a[0], tail_a, b[0], tail_b);
        lemma_escaped_prefix(a.skip(1), x, b.skip(1), y);
        assert(a =~= seq![a[0]] + a.skip(1));
        assert(b =~= seq![b[0]] + b.skip(1));
    }
}

/// A JSON string ends where its text says.
pub proof fn lemma_quoted_prefix(a: Seq<char>, x: Seq<char>, b: Seq<char>, y: Seq<char>)
    requires
        json::quoted(a) + x == json::quoted(b) + y,
    ensures
        a == b,
        x == y,
{
    let tail_a = json::escaped(a) + seq!['"'] + x;
    let tail_b = json::escaped(b) + seq!['"'] + y;
    assert(json::quoted(a) + x =~= seq!['"'] + tail_a);
    assert(json::quoted(b) + y =~= seq!['"'] + tail_b);
    lemma_cancel(seq!['"'], tail_a, tail_b);
    lemma_escaped_prefix(a, x, b, y);
}

proof fn lemma_decimal_prefix(a: nat, x: Seq<char>, b: nat, y: Seq<char>)
    requires
        number::decimal(a) + x == number::decimal(b) + y,
        delimited(x),
        delimited(y),
    ensures
        a == b,
        x == y,
{
    let da = number::decimal(a);
    let db = number::decimal(b);
    number::lemma_decimal(a);
    number::lemma_decimal(b);
    assert(da.len() == db.len()) by {
        if da.len() < db.len() {
            assert((da + x)[da.len() as int] == (db + y)[da.len() as int]);
            assert(x[0] == db[da.len() as int]);
            assert(number::is_digit(db[da.len() as int]));
        } else if db.len() < da.len() {
            assert((da + x)[db.len() as int] == (db + y)[db.len() as int]);
            assert(y[0] == da[db.len() as int]);
            assert(number::is_digit(da[db.len() as int]));
        }
    }
    assert((da + x).take(da.len() as int) =~= da);
    assert((db + y).take(db.len() as int) =~= db);
    lemma_cancel(da, x, y);
}

/// An integer in JSON ends where its text says.
pub proof fn lemma_integer_prefix(a: int, x: Seq<char>, b: int, y: Seq<char>)
    requires
        number::signed_decimal(a) + x == number::signed_decimal(b) + y,
        delimited(x),
        delimited(y),
    ensures
        a == b,
        x == y,
{
    lemma_integer_head(a);
    lemma_integer_head(b);
    let ta = number::signed_decimal(a);
    let tb = number::signed_decimal(b);
    assert((ta + x)[0] == ta[0] && (tb + y)[0] == tb[0]);
    reveal_strlit("-");
    if a < 0 {
        let da = number::decimal((-a) as nat) + x;
        let db = number::decimal((-b) as nat) + y;
        assert(ta + x =~= "-"@ + da);
        assert(tb + y =~= "-"@ + db);
        lemma_cancel("-"@, da, db);
        lemma_decimal_prefix((-a) as nat, x, (-b) as nat, y);
    } else {
        lemma_decimal_prefix(a as nat, x, b as nat, y);
    }
}

proof fn lemma_integer_head(value: int)
    ensures
        number::signed_decimal(value).len() > 0,
        value < 0 ==> number::signed_decimal(value)[0] == '-',
        value >= 0 ==> number::is_digit(number::signed_decimal(value)[0]),
{
    reveal_strlit("-");
    if value < 0 {
        number::lemma_decimal((-value) as nat);
    } else {
        number::lemma_decimal(value as nat);
    }
}

/// The parts from the one at `i` on, each behind a comma.
pub open spec fn behind_commas(parts: Seq<Seq<char>>, i: int) -> Seq<char>
    decreases parts.len() - i,
{
    if i >= parts.len() {
        Seq::empty()
    } else {
        ","@ + parts[i] + behind_commas(parts, i + 1)
    }
}

proof fn lemma_behind_commas_last(parts: Seq<Seq<char>>, i: int)
    requires
        0 <= i < parts.len(),
    ensures
        behind_commas(parts, i) == behind_commas(parts.drop_last(), i) + ","@ + parts.last(),
    decreases parts.len() - i,
{
    if i == parts.len() - 1 {
        assert(behind_commas(parts, i + 1) =~= Seq::empty());
        assert(behind_commas(parts.drop_last(), i) =~= Seq::empty());
        assert(behind_commas(parts, i) =~= Seq::<char>::empty() + ","@ + parts.last());
    } else {
        lemma_behind_commas_last(parts, i + 1);
        let rest = behind_commas(parts.drop_last(), i + 1);
        assert(parts.drop_last()[i] == parts[i]);
        assert(","@ + parts[i] + (rest + ","@ + parts.last()) =~= (","@ + parts[i] + rest) + ","@
            + parts.last());
    }
}

/// A joined list begins with its first part.
pub proof fn lemma_joined_first(parts: Seq<Seq<char>>)
    requires
        parts.len() > 0,
    ensures
        json::joined(parts) == parts[0] + behind_commas(parts, 1),
    decreases parts.len(),
{
    if parts.len() == 1 {
        assert(behind_commas(parts, 1) =~= Seq::empty());
        assert(parts[0] + Seq::<char>::empty() =~= parts[0]);
    } else {
        lemma_joined_first(parts.drop_last());
        lemma_behind_commas_last(parts, 1);
        assert(parts.drop_last()[0] == parts[0]);
        let rest = behind_commas(parts.drop_last(), 1);
        assert((parts[0] + rest) + ","@ + parts.last() =~= parts[0] + (rest + ","@ + parts.last()));
    }
}

/// How the text of a value begins.
proof fn lemma_head(value: json::JsonView)
    requires
        integral(value),
    ensures
        json::value_text(value).len() > 0,
        ({
            let first = json::value_text(value)[0];
            match value {
                json::JsonView::Null => first == 'n',
                json::JsonView::Bool(true) => first == 't',
                json::JsonView::Bool(false) => first == 'f',
                json::JsonView::Number(_) => first == '-' || number::is_digit(first),
                json::JsonView::Text(_) => first == '"',
                json::JsonView::Array(_) => first == '[',
                json::JsonView::Object(_) => first == '{',
            }
        }),
{
    reveal_strlit("null");
    reveal_strlit("true");
    reveal_strlit("false");
    reveal_strlit("[");
    reveal_strlit("{");
    match value {
        json::JsonView::Number(json::NumberView::Integer(number)) => {
            lemma_integer_head(number);
        },
        _ => {},
    }
}

proof fn lemma_behind_commas_delimited(parts: Seq<Seq<char>>, i: int, close: char, x: Seq<char>)
    requires
        close == ']' || close == '}',
    ensures
        delimited(behind_commas(parts, i) + seq![close] + x),
        i >= parts.len() ==> (behind_commas(parts, i) + seq![close] + x)[0] == close,
        i < parts.len() ==> (behind_commas(parts, i) + seq![close] + x)[0] == ',',
{
    reveal_strlit(",");
}

/// A value ends where its text says, wherever it stands in a larger text.
pub proof fn lemma_value_prefix(a: json::JsonView, x: Seq<char>, b: json::JsonView, y: Seq<char>)
    requires
        integral(a),
        integral(b),
        delimited(x),
        delimited(y),
        json::value_text(a) + x == json::value_text(b) + y,
    ensures
        a == b,
        x == y,
    decreases a, 0int,
{
    let ta = json::value_text(a);
    let tb = json::value_text(b);
    lemma_head(a);
    lemma_head(b);
    assert((ta + x)[0] == ta[0] && (tb + y)[0] == tb[0]);
    match (a, b) {
        (json::JsonView::Number(p), json::JsonView::Number(q)) => {
            lemma_integer_prefix(p->Integer_0, x, q->Integer_0, y);
        },
        (json::JsonView::Text(p), json::JsonView::Text(q)) => {
            lemma_quoted_prefix(p, x, q, y);
        },
        (json::JsonView::Array(p), json::JsonView::Array(q)) => {
            lemma_array_prefix(p, x, q, y);
        },
        (json::JsonView::Object(p), json::JsonView::Object(q)) => {
            lemma_object_prefix(p, x, q, y);
        },
        _ => {
            assert(a == b);
            lemma_cancel(ta, x, y);
        },
    }
}

proof fn lemma_array_prefix(p: Seq<json::JsonView>, x: Seq<char>, q: Seq<json::JsonView>, y: Seq<char>)
    requires
        forall|k: int| 0 <= k < p.len() ==> integral(#[trigger] p[k]),
        forall|k: int| 0 <= k < q.len() ==> integral(#[trigger] q[k]),
        delimited(x),
        delimited(y),
        json::value_text(json::JsonView::Array(p)) + x == json::value_text(
            json::JsonView::Array(q),
        ) + y,
    ensures
        p == q,
        x == y,
    decreases p, p.len() + 1,
{
    let ta = json::value_text(json::JsonView::Array(p));
    let tb = json::value_text(json::JsonView::Array(q));
    reveal_strlit("[");
    reveal_strlit("]");
    let left = json::items_texts(p);
    let right = json::items_texts(q);
    let inner_a = json::joined(left) + seq![']'] + x;
    let inner_b = json::joined(right) + seq![']'] + y;
    assert(ta + x =~= seq!['['] + inner_a);
    assert(tb + y =~= seq!['['] + inner_b);
    lemma_cancel(seq!['['], inner_a, inner_b);
    if p.len() == 0 {
        assert(inner_a =~= seq![']'] + x);
        if q.len() > 0 {
            lemma_joined_first(right);
            lemma_head(q[0]);
            assert(inner_b[0] == json::value_text(q[0])[0]);
        }
        assert(inner_b =~= seq![']'] + y);
        assert(p =~= q);
        lemma_cancel(seq![']'], x, y);
    } else {
        lemma_joined_first(left);
        lemma_head(p[0]);
        assert(inner_a[0] == json::value_text(p[0])[0]);
        if q.len() == 0 {
            assert(inner_b[0] == ']');
        }
        lemma_joined_first(right);
        let rest_a = behind_commas(left, 1) + seq![']'] + x;
        let rest_b = behind_commas(right, 1) + seq![']'] + y;
        assert(inner_a =~= json::value_text(p[0]) + rest_a);
        assert(inner_b =~= json::value_text(q[0]) + rest_b);
        lemma_behind_commas_delimited(left, 1, ']', x);
        lemma_behind_commas_delimited(right, 1, ']', y);
        lemma_value_prefix(p[0], rest_a, q[0], rest_b);
        lemma_items_prefix(p, 1, x, q, y);
        assert(p =~= q);
    }
}

proof fn lemma_object_prefix(p: Seq<(Seq<char>, json::JsonView)>, x: Seq<char>, q: Seq<(Seq<char>, json::JsonView)>, y: Seq<char>)
    requires
        forall|k: int| 0 <= k < p.len() ==> integral((#[trigger] p[k]).1),
        forall|k: int| 0 <= k < q.len() ==> integral((#[trigger] q[k]).1),
        delimited(x),
        delimited(y),
        json::value_text(json::JsonView::Object(p)) + x == json::value_text(
            json::JsonView::Object(q),
        ) + y,
    ensures
        p == q,
        x == y,
    decreases p, p.len() + 2,
{
    let ta = json::value_text(json::JsonView::Object(p));
    let tb = json::value_text(json::JsonView::Object(q));
    reveal_strlit("{");
    reveal_strlit("}");
    let left = json::members_texts(p);
    let right = json::members_texts(q);
    let inner_a = json::joined(left) + seq!['}'] + x;
    let inner_b = json::joined(right) + seq!['}'] + y;
    assert(ta + x =~= seq!['{'] + inner_a);
    assert(tb + y =~= seq!['{'] + inner_b);
    lemma_cancel(seq!['{'], inner_a, inner_b);
    if p.len() == 0 {
        assert(inner_a =~= seq!['}'] + x);
        if q.len() > 0 {
            lemma_joined_first(right);
            assert(inner_b[0] == '"');
        }
        assert(inner_b =~= seq!['}'] + y);
        assert(p =~= q);
        lemma_cancel(seq!['}'], x, y);
    } else {
        lemma_joined_first(left);
        assert(inner_a[0] == '"');
        if q.len() == 0 {
            assert(inner_b[0] == '}');
        }
        lemma_joined_first(right);
        let rest_a = behind_commas(left, 1) + seq!['}'] + x;
        let rest_b = behind_commas(right, 1) + seq!['}'] + y;
        assert(inner_a =~= left[0] + rest_a);
        assert(inner_b =~= right[0] + rest_b);
        lemma_behind_commas_delimited(left, 1, '}', x);
        lemma_behind_commas_delimited(right, 1, '}', y);
        lemma_member_prefix(p, q, 0, rest_a, rest_b);
        lemma_members_prefix(p, 1, x, q, y);
        assert(p =~= q);
    }
}

proof fn lemma_items_prefix(
    a: Seq<json::JsonView>,
    i: int,
    x: Seq<char>,
    b: Seq<json::JsonView>,
    y: Seq<char>,
)
    requires
        0 <= i <= a.len(),
        i <= b.len(),
        forall|k: int| 0 <= k < a.len() ==> integral(#[trigger] a[k]),
        forall|k: int| 0 <= k < b.len() ==> integral(#[trigger] b[k]),
        behind_commas(json::items_texts(a), i) + seq![']'] + x == behind_commas(
            json::items_texts(b),
            i,
        ) + seq![']'] + y,
    ensures
        a.len() == b.len(),
        forall|k: int| i <= k < a.len() ==> a[k] == b[k],
        x == y,
    decreases a, a.len() - i,
{
    let left = json::items_texts(a);
    let right = json::items_texts(b);
    lemma_behind_commas_delimited(left, i, ']', x);
    lemma_behind_commas_delimited(right, i, ']', y);
    if i == a.len() {
        assert(behind_commas(left, i) + seq![']'] + x =~= seq![']'] + x);
        assert(behind_commas(right, i) + seq![']'] + y =~= seq![']'] + y);
        lemma_cancel(seq![']'], x, y);
    } else {
        let rest_a = behind_commas(left, i + 1) + seq![']'] + x;
        let rest_b = behind_commas(right, i + 1) + seq![']'] + y;
        assert(behind_commas(left, i) + seq![']'] + x =~= ","@ + (json::value_text(a[i]) + rest_a));
        assert(behind_commas(right, i) + seq![']'] + y =~= ","@ + (json::value_text(b[i])
            + rest_b));
        lemma_cancel(","@, json::value_text(a[i]) + rest_a, json::value_text(b[i]) + rest_b);
        lemma_behind_commas_delimited(left, i + 1, ']', x);
        lemma_behind_commas_delimited(right, i + 1, ']', y);
        lemma_value_prefix(a[i], rest_a, b[i], rest_b);
        lemma_items_prefix(a, i + 1, x, b, y);
    }
}

proof fn lemma_member_prefix(
    a: Seq<(Seq<char>, json::JsonView)>,
    b: Seq<(Seq<char>, json::JsonView)>,
    i: int,
    x: Seq<char>,
    y: Seq<char>,
)
    requires
        0 <= i < a.len(),
        i < b.len(),
        integral(a[i].1),
        integral(b[i].1),
        delimited(x),
        delimited(y),
        json::members_texts(a)[i] + x == json::members_texts(b)[i] + y,
    ensures
        a[i] == b[i],
        x == y,
    decreases a, 0int,
{
    let value_a = json::value_text(a[i].1) + x;
    let value_b = json::value_text(b[i].1) + y;
    assert(json::members_texts(a)[i] + x =~= json::quoted(a[i].0) + (":"@ + value_a));
    assert(json::members_texts(b)[i] + y =~= json::quoted(b[i].0) + (":"@ + value_b));
    lemma_quoted_prefix(a[i].0, ":"@ + value_a, b[i].0, ":"@ + value_b);
    lemma_cancel(":"@, value_a, value_b);
    assert(decreases_to!(a => a[i]));
    assert(decreases_to!(a[i] => a[i].1));
    lemma_value_prefix(a[i].1, x, b[i].1, y);
}

proof fn lemma_members_prefix(
    a: Seq<(Seq<char>, json::JsonView)>,
    i: int,
    x: Seq<char>,
    b: Seq<(Seq<char>, json::JsonView)>,
    y: Seq<char>,
)
    requires
        0 <= i <= a.len(),
        i <= b.len(),
        forall|k: int| 0 <= k < a.len() ==> integral((#[trigger] a[k]).1),
        forall|k: int| 0 <= k < b.len() ==> integral((#[trigger] b[k]).1),
        behind_commas(json::members_texts(a), i) + seq!['}'] + x == behind_commas(
            json::members_texts(b),
            i,
        ) + seq!['}'] + y,
    ensures
        a.len() == b.len(),
        forall|k: int| i <= k < a.len() ==> a[k] == b[k],
        x == y,
    decreases a, 1 + a.len() - i,
{
    let left = json::members_texts(a);
    let right = json::members_texts(b);
    lemma_behind_commas_delimited(left, i, '}', x);
    lemma_behind_commas_delimited(right, i, '}', y);
    if i == a.len() {
        assert(behind_commas(left, i) + seq!['}'] + x =~= seq!['}'] + x);
        assert(behind_commas(right, i) + seq!['}'] + y =~= seq!['}'] + y);
        lemma_cancel(seq!['}'], x, y);
    } else {
        let rest_a = behind_commas(left, i + 1) + seq!['}'] + x;
        let rest_b = behind_commas(right, i + 1) + seq!['}'] + y;
        assert(behind_commas(left, i) + seq!['}'] + x =~= ","@ + (left[i] + rest_a));
        assert(behind_commas(right, i) + seq!['}'] + y =~= ","@ + (right[i] + rest_b));
        lemma_cancel(","@, left[i] + rest_a, right[i] + rest_b);
        lemma_behind_commas_delimited(left, i + 1, '}', x);
        lemma_behind_commas_delimited(right, i + 1, '}', y);
        lemma_member_prefix(a, b, i, rest_a, rest_b);
        lemma_members_prefix(a, i + 1, x, b, y);
    }
}

/// Two values whose numbers are integers have the same text only where they are
/// the same value.
pub proof fn law_json_text_is_unambiguous(a: json::JsonView, b: json::JsonView)
    requires
        integral(a),
        integral(b),
        json::value_text(a) == json::value_text(b),
    ensures
        a == b,
{
    let none = Seq::<char>::empty();
    assert(json::value_text(a) + none =~= json::value_text(a));
    assert(json::value_text(b) + none =~= json::value_text(b));
    lemma_value_prefix(a, none, b, none);
}

} // verus!
