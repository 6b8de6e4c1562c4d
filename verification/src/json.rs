//! JSON text: what is put into requests, and what is read from replies.
use vstd::prelude::*;

use crate::hash::hex_char;
use crate::text::texts;

verus! {

/// One character inside a JSON string.
pub open spec fn json_char(c: char) -> Seq<char> {
    if c == '"' {
        seq!['\\', '"']
    } else if c == '\\' {
        seq!['\\', '\\']
    } else if c as int == 8 {
        seq!['\\', 'b']
    } else if c as int == 9 {
        seq!['\\', 't']
    } else if c as int == 10 {
        seq!['\\', 'n']
    } else if c as int == 12 {
        seq!['\\', 'f']
    } else if c as int == 13 {
        seq!['\\', 'r']
    } else if (c as int) < 32 {
        seq!['\\', 'u', '0', '0', hex_char(c as int / 16), hex_char(c as int % 16)]
    } else {
        seq![c]
    }
}

/// The characters of a text inside a JSON string.
pub open spec fn json_chars(text: Seq<char>) -> Seq<char>
    decreases text.len(),
{
    if text.len() == 0 {
        Seq::empty()
    } else {
        json_char(text[0]) + json_chars(text.drop_first())
    }
}

/// A text as a JSON string.
pub open spec fn json_quoted(text: Seq<char>) -> Seq<char> {
    seq!['"'] + json_chars(text) + seq!['"']
}

/// `serde_json::Value::from` a text, and its `to_string`: the text as a JSON string. The
/// quote, the backslash and the control characters below the space are escaped, those
/// with a short form by it and the others by their number; anything else stands for
/// itself.
#[verifier::external_body]
pub(crate) fn json_string(text: &str) -> (r: String)
    ensures
        r@ == json_quoted(text@),
{
    serde_json::Value::from(text).to_string()
}

/// What serde_json finds in a JSON text under two keys, one inside the other: `None`
/// where the text is no JSON, `Some(None)` where there is no array, else the items of
/// the array, each as JSON text.
pub uninterp spec fn json_array(text: Seq<char>, outer: Seq<char>, inner: Seq<char>) -> Option<
    Option<Seq<Seq<char>>>,
>;

/// What can be wrong with a JSON text.
#[verifier::external_type_specification]
#[verifier::external_body]
pub struct ExJsonError(serde_json::Error);

/// What a list of texts that may not be there holds.
pub open spec fn opt_texts(list: Option<Vec<String>>) -> Option<Seq<Seq<char>>> {
    match list {
        Some(items) => Some(texts(items@)),
        None => None,
    }
}

/// `serde_json::from_str` into a `serde_json::Value`, then its value under `outer` and
/// in that under `inner`, `as_array`, and `to_string` of each item. The result depends
/// on the three texts alone.
#[verifier::external_body]
pub(crate) fn json_array_at(text: &str, outer: &str, inner: &str) -> (r: Result<
    Option<Vec<String>>,
    serde_json::Error,
>)
    ensures
        r is Err <==> json_array(text@, outer@, inner@) is None,
        r is Ok ==> json_array(text@, outer@, inner@) == Some(opt_texts(r->Ok_0)),
{
    let value: serde_json::Value = serde_json::from_str(text)?;
    let items = value[outer][inner].as_array();
    Ok(items.map(|items| items.iter().map(|item| item.to_string()).collect()))
}

proof fn json_char_is_told_by_its_start(a: char, b: char, x: Seq<char>, y: Seq<char>)
    requires
        json_char(a) + x == json_char(b) + y,
    ensures
        a == b,
        x == y,
{
    let p = json_char(a) + x;
    let q = json_char(b) + y;
    assert(p[0] == json_char(a)[0]);
    assert(q[0] == json_char(b)[0]);
    if p[0] == '\\' {
        assert(p[1] == json_char(a)[1]);
        assert(q[1] == json_char(b)[1]);
        if p[1] == 'u' {
            assert(p[4] == json_char(a)[4] && p[5] == json_char(a)[5]);
            assert(q[4] == json_char(b)[4] && q[5] == json_char(b)[5]);
            assert(p[4] as int == q[4] as int && p[5] as int == q[5] as int);
        }
    }
    assert(a == b);
    assert(x =~= p.skip(json_char(a).len() as int));
    assert(y =~= q.skip(json_char(b).len() as int));
}

proof fn json_chars_tell_texts_apart(a: Seq<char>, b: Seq<char>)
    requires
        json_chars(a) == json_chars(b),
    ensures
        a == b,
    decreases a.len(),
{
    if a.len() == 0 {
        if b.len() > 0 {
            assert(json_chars(b).len() >= json_char(b[0]).len());
        }
        assert(a =~= b);
    } else {
        assert(json_chars(a).len() >= json_char(a[0]).len());
        assert(b.len() > 0);
        json_char_is_told_by_its_start(
            a[0],
            b[0],
            json_chars(a.drop_first()),
            json_chars(b.drop_first()),
        );
        json_chars_tell_texts_apart(a.drop_first(), b.drop_first());
        assert(a =~= seq![a[0]] + a.drop_first());
        assert(b =~= seq![b[0]] + b.drop_first());
    }
}

/// Different texts are different JSON strings.
pub proof fn json_tells_texts_apart(a: Seq<char>, b: Seq<char>)
    requires
        json_quoted(a) == json_quoted(b),
    ensures
        a == b,
{
    assert(json_quoted(a).len() == json_chars(a).len() + 2);
    assert(json_quoted(b).len() == json_chars(b).len() + 2);
    assert(json_chars(a) =~= json_quoted(a).subrange(1, json_quoted(a).len() - 1));
    assert(json_chars(b) =~= json_quoted(b).subrange(1, json_quoted(b).len() - 1));
    json_chars_tell_texts_apart(a, b);
}

} // verus!
