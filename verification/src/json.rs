//! JSON text.
//!
//! The first half says what the compact JSON text of a value is. The second half
//! builds `serde_json` values and writes them out; each function there states the
//! text of what it makes.

use vstd::prelude::*;

verus! {

/// The lower-case hexadecimal digit for a number below 16.
pub open spec fn hex_digit(n: int) -> char {
    if n < 10 {
        (48 + n) as char
    } else {
        (87 + n) as char
    }
}

/// How one character stands inside a JSON string.
pub open spec fn escaped(c: char) -> Seq<char> {
    if c == '"' {
        seq!['\\', '"']
    } else if c == '\\' {
        seq!['\\', '\\']
    } else if c == '\u{8}' {
        seq!['\\', 'b']
    } else if c == '\t' {
        seq!['\\', 't']
    } else if c == '\n' {
        seq!['\\', 'n']
    } else if c == '\u{c}' {
        seq!['\\', 'f']
    } else if c == '\r' {
        seq!['\\', 'r']
    } else if (c as int) < 32 {
        seq!['\\', 'u', '0', '0', hex_digit(c as int / 16), hex_digit(c as int % 16)]
    } else {
        seq![c]
    }
}

/// The characters of `text` one after the other, each as it stands inside a JSON string.
pub open spec fn escaped_all(text: Seq<char>) -> Seq<char>
    decreases text.len(),
{
    if text.len() == 0 {
        seq![]
    } else {
        escaped_all(text.drop_last()) + escaped(text.last())
    }
}

/// The JSON string that stands for `text`.
pub open spec fn quoted(text: Seq<char>) -> Seq<char> {
    seq!['"'] + escaped_all(text) + seq!['"']
}

/// The decimal digits of `n`, without leading zeros.
pub open spec fn decimal(n: nat) -> Seq<char>
    decreases n,
{
    if n < 10 {
        seq![(48 + n) as char]
    } else {
        decimal(n / 10).push((48 + n % 10) as char)
    }
}

/// The parts one after the other, with a comma between two neighbours.
pub open spec fn comma_joined(parts: Seq<Seq<char>>) -> Seq<char>
    decreases parts.len(),
{
    if parts.len() == 0 {
        seq![]
    } else if parts.len() == 1 {
        parts[0]
    } else {
        comma_joined(parts.drop_last()) + seq![','] + parts.last()
    }
}

/// The text of an array whose items have the texts `items`.
pub open spec fn array_text(items: Seq<Seq<char>>) -> Seq<char> {
    seq!['['] + comma_joined(items) + seq![']']
}

/// The text of one member of an object: its key, and the text of its value.
pub open spec fn member_text(member: (Seq<char>, Seq<char>)) -> Seq<char> {
    quoted(member.0) + seq![':'] + member.1
}

/// The text of an object with these members, in this order.
pub open spec fn object_text(members: Seq<(Seq<char>, Seq<char>)>) -> Seq<char> {
    seq!['{'] + comma_joined(members.map_values(|m: (Seq<char>, Seq<char>)| member_text(m))) + seq![
        '}',
    ]
}

/// `a` comes before `b` in dictionary order: they agree on their first `k`
/// characters, and then `a` ends or has the smaller character.
pub open spec fn precedes_at(a: Seq<char>, b: Seq<char>, k: int) -> bool {
    &&& 0 <= k <= a.len()
    &&& k < b.len()
    &&& a.take(k) == b.take(k)
    &&& k == a.len() || a[k] < b[k]
}

/// `a` comes before `b` in dictionary order.
pub open spec fn precedes(a: Seq<char>, b: Seq<char>) -> bool {
    exists|k: int| precedes_at(a, b, k)
}

/// Each key comes before the next one.
pub open spec fn ascending(keys: Seq<Seq<char>>) -> bool {
    forall|i: int| 0 <= i < keys.len() - 1 ==> precedes(#[trigger] keys[i], keys[i + 1])
}

/// A number between 0 and 1 with one decimal digit that is not zero, such as `0.5`.
pub open spec fn is_tenths(text: Seq<char>) -> bool {
    text.len() == 3 && text[0] == '0' && text[1] == '.' && '1' <= text[2] <= '9'
}

/// Distinct texts have distinct JSON strings: nothing of a text is lost in its
/// JSON string.
pub proof fn law_quoted_is_injective(a: Seq<char>, b: Seq<char>)
    requires
        quoted(a) == quoted(b),
    ensures
        a == b,
{
    let qa = quoted(a);
    let qb = quoted(b);
    assert(qa.subrange(1, qa.len() - 1) =~= escaped_all(a));
    assert(qb.subrange(1, qb.len() - 1) =~= escaped_all(b));
    lemma_escaped_all_is_injective(a, b);
}

proof fn lemma_escaped_all_front(text: Seq<char>)
    requires
        text.len() > 0,
    ensures
        escaped_all(text) == escaped(text[0]) + escaped_all(text.skip(1)),
    decreases text.len(),
{
    if text.len() == 1 {
        assert(text.drop_last() =~= seq![]);
        assert(text.skip(1) =~= seq![]);
        assert(escaped_all(text) =~= escaped(text[0]) + escaped_all(text.skip(1)));
    } else {
        lemma_escaped_all_front(text.drop_last());
        assert(text.drop_last().skip(1) =~= text.skip(1).drop_last());
        assert(escaped_all(text) =~= escaped(text[0]) + escaped_all(text.skip(1)));
    }
}

/// What stands for one character is never the beginning of what stands for another.
proof fn lemma_escaped_is_prefix_free(c: char, d: char, s: Seq<char>, t: Seq<char>)
    requires
        escaped(c) + s == escaped(d) + t,
    ensures
        c == d,
        s == t,
{
    let u = escaped(c) + s;
    let v = escaped(d) + t;
    assert(escaped(c).len() >= 1 && escaped(d).len() >= 1);
    assert(u[0] == escaped(c)[0]);
    assert(v[0] == escaped(d)[0]);
    if escaped(c).len() >= 2 {
        assert(u[1] == escaped(c)[1]);
    }
    if escaped(d).len() >= 2 {
        assert(v[1] == escaped(d)[1]);
    }
    if escaped(c).len() == 6 {
        assert(u[4] == escaped(c)[4] && u[5] == escaped(c)[5]);
    }
    if escaped(d).len() == 6 {
        assert(v[4] == escaped(d)[4] && v[5] == escaped(d)[5]);
    }
    assert(c == d);
    assert(u.skip(escaped(c).len() as int) =~= s);
    assert(v.skip(escaped(c).len() as int) =~= t);
}

proof fn lemma_escaped_all_is_injective(a: Seq<char>, b: Seq<char>)
    requires
        escaped_all(a) == escaped_all(b),
    ensures
        a == b,
    decreases a.len(),
{
    if a.len() > 0 {
        lemma_escaped_all_front(a);
        assert(escaped(a[0]).len() >= 1);
        assert(escaped_all(a).len() >= 1);
    } else {
        assert(escaped_all(a).len() == 0);
    }
    if b.len() > 0 {
        lemma_escaped_all_front(b);
        assert(escaped(b[0]).len() >= 1);
        assert(escaped_all(b).len() >= 1);
    } else {
        assert(escaped_all(b).len() == 0);
    }
    if a.len() == 0 {
        assert(a =~= b);
    } else {
        lemma_escaped_is_prefix_free(
            a[0],
            b[0],
            escaped_all(a.skip(1)),
            escaped_all(b.skip(1)),
        );
        lemma_escaped_all_is_injective(a.skip(1), b.skip(1));
        assert(a =~= seq![a[0]] + a.skip(1));
        assert(b =~= seq![b[0]] + b.skip(1));
    }
}

/// A JSON string grows character by character: quotes and backslashes get a backslash,
/// five control characters have a letter, the others their number in hexadecimal, and
/// every other character stands as it is.
pub proof fn law_quoted_grows_by_one_character(text: Seq<char>, c: char)
    ensures
        quoted(seq![]) == seq!['"', '"'],
        quoted(text.push(c)) == quoted(text).drop_last() + (if c == '"' {
            seq!['\\', '"']
        } else if c == '\\' {
            seq!['\\', '\\']
        } else if c as int == 8 {
            seq!['\\', 'b']
        } else if c as int == 9 {
            seq!['\\', 't']
        } else if c as int == 10 {
            seq!['\\', 'n']
        } else if c as int == 12 {
            seq!['\\', 'f']
        } else if c as int == 13 {
            seq!['\\', 'r']
        } else if c as int == 0 {
            seq!['\\', 'u', '0', '0', '0', '0']
        } else if (c as int) < 16 {
            seq!['\\', 'u', '0', '0', '0', "0123456789abcdef"@[c as int]]
        } else if (c as int) < 32 {
            seq!['\\', 'u', '0', '0', '1', "0123456789abcdef"@[c as int - 16]]
        } else {
            seq![c]
        }) + seq!['"'],
{
    reveal_strlit("0123456789abcdef");
    assert(quoted(seq![]) =~= seq!['"', '"']);
    assert(text.push(c).drop_last() =~= text);
    assert(quoted(text).drop_last() =~= seq!['"'] + escaped_all(text));
    assert(quoted(text.push(c)) =~= quoted(text).drop_last() + escaped(c) + seq!['"']);
}

/// A number is written with the digit of its ones at the end, in front of which a tenth
/// of it is written if it is not below ten.
pub proof fn law_decimal_ends_in_the_ones(n: nat)
    ensures
        decimal(n).len() >= 1,
        decimal(n).last() == "0123456789"@[(n % 10) as int],
        n < 10 ==> decimal(n).len() == 1,
        n >= 10 ==> decimal(n).drop_last() == decimal(n / 10),
{
    reveal_strlit("0123456789");
    if n >= 10 {
        assert(decimal(n).drop_last() =~= decimal(n / 10));
    }
}

/// A text without quotes, backslashes and control characters stands in its JSON
/// string as it is.
pub proof fn law_plain_text_is_quoted_verbatim(text: Seq<char>)
    requires
        forall|i: int| 0 <= i < text.len() ==> text[i] != '"' && text[i] != '\\' && text[i] as int >= 32,
    ensures
        quoted(text) == seq!['"'] + text + seq!['"'],
{
    lemma_plain_text_is_not_escaped(text);
}

proof fn lemma_plain_text_is_not_escaped(text: Seq<char>)
    requires
        forall|i: int| 0 <= i < text.len() ==> text[i] != '"' && text[i] != '\\' && text[i] as int >= 32,
    ensures
        escaped_all(text) == text,
    decreases text.len(),
{
    if text.len() == 0 {
        assert(escaped_all(text) =~= text);
    } else {
        lemma_plain_text_is_not_escaped(text.drop_last());
        assert(escaped(text.last()) =~= seq![text.last()]);
        assert(escaped_all(text) =~= text);
    }
}

/// A member whose key is plain text begins with `lead`: the key in quotes and a colon.
pub(crate) proof fn lemma_member(key: Seq<char>, lead: Seq<char>, value: Seq<char>)
    requires
        forall|i: int| 0 <= i < key.len() ==> key[i] != '"' && key[i] != '\\' && key[i] as int >= 32,
        lead =~= seq!['"'] + key + seq!['"', ':'],
    ensures
        member_text((key, value)) == lead + value,
{
    law_plain_text_is_quoted_verbatim(key);
    assert(member_text((key, value)) =~= lead + value);
}

/// A JSON value, as `serde_json` holds it.
#[verifier::external_type_specification]
#[verifier::external_body]
pub struct ExValue(serde_json::Value);

/// What a JSON value holds, written as compact JSON text: what `serde_json::to_string`
/// gives for it.
pub uninterp spec fn json_text(value: serde_json::Value) -> Seq<char>;

/// Calls `serde_json::to_string` on a value. A `Value` has string keys only, so the
/// call does not fail, and its text is the value's compact JSON text.
#[verifier::external_body]
pub(crate) fn value_to_text(value: &serde_json::Value) -> (text: String)
    ensures
        text@ == json_text(*value),
{
    serde_json::to_string(value).unwrap()
}

/// Makes the JSON string that holds `text`, by `serde_json::Value::from`.
#[verifier::external_body]
pub(crate) fn string_value(text: &str) -> (value: serde_json::Value)
    ensures
        json_text(value) == quoted(text@),
{
    serde_json::Value::from(text)
}

/// Makes a JSON number out of a whole number, by `serde_json::Value::from`. It is
/// written in decimal.
#[verifier::external_body]
pub(crate) fn integer_value(n: u64) -> (value: serde_json::Value)
    ensures
        json_text(value) == decimal(n as nat),
{
    serde_json::Value::from(n)
}

/// Reads a number with one decimal digit by `serde_json::from_str`. The number read
/// is the floating-point number nearest to the text, and the shortest text for it is
/// the one it was read from.
#[verifier::external_body]
pub(crate) fn tenths_value(text: &str) -> (value: serde_json::Value)
    requires
        is_tenths(text@),
    ensures
        json_text(value) == text@,
{
    serde_json::from_str(text).unwrap()
}

/// Makes the JSON value `null`: `serde_json::Value::Null`.
#[verifier::external_body]
pub(crate) fn null_value() -> (value: serde_json::Value)
    ensures
        json_text(value) == "null"@,
{
    serde_json::Value::Null
}

/// Makes a JSON array with these items in this order, by `serde_json::Value::from`.
#[verifier::external_body]
pub(crate) fn array_value(items: Vec<serde_json::Value>) -> (value: serde_json::Value)
    ensures
        json_text(value) == array_text(items@.map_values(|v: serde_json::Value| json_text(v))),
{
    serde_json::Value::from(items)
}

/// Collects the members into a `serde_json::Map` and makes an object of it. The map
/// walks its keys in dictionary order or in the order of insertion, which are the
/// same here.
#[verifier::external_body]
pub(crate) fn object_value(members: Vec<(String, serde_json::Value)>) -> (value: serde_json::Value)
    requires
        ascending(members@.map_values(|m: (String, serde_json::Value)| m.0@)),
    ensures
        json_text(value) == object_text(
            members@.map_values(|m: (String, serde_json::Value)| (m.0@, json_text(m.1))),
        ),
{
    serde_json::Value::Object(members.into_iter().collect())
}

} // verus!
