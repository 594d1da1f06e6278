//! Fragments of compact JSON text: string escaping, decimal rendering of
//! integers, boolean keywords, and comma-joined lists.
//!
//! Every exec function here carries an `ensures` that gives the emitted text
//! character by character, through the spec functions of this module.

use vstd::prelude::*;

verus! {

/// The lowercase hexadecimal digit for `d`; `'0'` when `d` is out of range.
pub open spec fn hex_digit(d: int) -> char {
    if d == 0 {
        '0'
    } else if d == 1 {
        '1'
    } else if d == 2 {
        '2'
    } else if d == 3 {
        '3'
    } else if d == 4 {
        '4'
    } else if d == 5 {
        '5'
    } else if d == 6 {
        '6'
    } else if d == 7 {
        '7'
    } else if d == 8 {
        '8'
    } else if d == 9 {
        '9'
    } else if d == 10 {
        'a'
    } else if d == 11 {
        'b'
    } else if d == 12 {
        'c'
    } else if d == 13 {
        'd'
    } else if d == 14 {
        'e'
    } else if d == 15 {
        'f'
    } else {
        '0'
    }
}

/// How one character appears inside a JSON string literal: the two-character
/// escapes for the quote, the backslash and the common control characters,
/// `\u00XX` for the remaining control characters, and the character itself
/// otherwise.
pub open spec fn escaped_char(c: char) -> Seq<char> {
    if c == '"' {
        "\\\""@
    } else if c == '\\' {
        "\\\\"@
    } else if c == '\u{8}' {
        "\\b"@
    } else if c == '\t' {
        "\\t"@
    } else if c == '\n' {
        "\\n"@
    } else if c == '\u{c}' {
        "\\f"@
    } else if c == '\r' {
        "\\r"@
    } else if (c as u32) < 0x20 {
        "\\u00"@ + seq![hex_digit(((c as u32) / 16) as int), hex_digit(((c as u32) % 16) as int)]
    } else {
        seq![c]
    }
}

/// The body of a JSON string literal for `s`: each character escaped in turn.
pub open spec fn escaped(s: Seq<char>) -> Seq<char>
    decreases s.len(),
{
    if s.len() == 0 {
        Seq::empty()
    } else {
        escaped(s.drop_last()) + escaped_char(s.last())
    }
}

/// `s` between double quotes, unescaped.
pub open spec fn quoted(s: Seq<char>) -> Seq<char> {
    "\""@ + s + "\""@
}

/// The JSON string literal for `s`, quotes included.
pub open spec fn json_string(s: Seq<char>) -> Seq<char> {
    "\""@ + escaped(s) + "\""@
}

/// The decimal digits of `n`, most significant first.
pub open spec fn decimal_digits(n: nat) -> Seq<char>
    decreases n,
{
    if n < 10 {
        seq![hex_digit(n as int)]
    } else {
        decimal_digits(n / 10) + seq![hex_digit((n % 10) as int)]
    }
}

/// The decimal rendering of `n`, with a leading minus sign when negative.
pub open spec fn decimal(n: int) -> Seq<char> {
    if n < 0 {
        "-"@ + decimal_digits((-n) as nat)
    } else {
        decimal_digits(n as nat)
    }
}

/// The JSON keyword for a boolean.
pub open spec fn bool_text(b: bool) -> Seq<char> {
    if b {
        "true"@
    } else {
        "false"@
    }
}

/// The elements of `ps` in order, separated by commas.
pub open spec fn comma_join(ps: Seq<Seq<char>>) -> Seq<char>
    decreases ps.len(),
{
    if ps.len() == 0 {
        Seq::empty()
    } else if ps.len() == 1 {
        ps[0]
    } else {
        comma_join(ps.drop_last()) + ","@ + ps.last()
    }
}

/// The JSON string literal for each element of `a`, in order.
pub open spec fn string_literals(a: Seq<Seq<char>>) -> Seq<Seq<char>> {
    Seq::new(a.len(), |i: int| json_string(a[i]))
}

/// The JSON array of string literals for `a`.
pub open spec fn json_string_array(a: Seq<Seq<char>>) -> Seq<char> {
    "["@ + comma_join(string_literals(a)) + "]"@
}

pub proof fn lemma_comma_join_take(ps: Seq<Seq<char>>, i: int)
    requires
        0 <= i < ps.len(),
    ensures
        comma_join(ps.take(i + 1)) == if i == 0 {
            ps[0]
        } else {
            (comma_join(ps.take(i)) + ","@ + ps[i])
        },
{
    let t = ps.take(i + 1);
    assert(t.len() == i + 1);
    if i == 0 {
        assert(comma_join(t) == t[0]);
    } else {
        assert(t.drop_last() =~= ps.take(i));
        assert(t.last() == ps[i]);
    }
}

/// Relies on `String::push`: appends exactly the given character.
#[verifier::external_body]
pub(crate) fn push_char(out: &mut String, c: char)
    ensures
        final(out)@ == old(out)@ + seq![c],
{
    out.push(c);
}

pub(crate) fn hex_digit_char(d: u32) -> (c: char)
    requires
        d < 16,
    ensures
        c == hex_digit(d as int),
{
    if d == 0 {
        '0'
    } else if d == 1 {
        '1'
    } else if d == 2 {
        '2'
    } else if d == 3 {
        '3'
    } else if d == 4 {
        '4'
    } else if d == 5 {
        '5'
    } else if d == 6 {
        '6'
    } else if d == 7 {
        '7'
    } else if d == 8 {
        '8'
    } else if d == 9 {
        '9'
    } else if d == 10 {
        'a'
    } else if d == 11 {
        'b'
    } else if d == 12 {
        'c'
    } else if d == 13 {
        'd'
    } else if d == 14 {
        'e'
    } else {
        'f'
    }
}

pub(crate) fn push_escaped_char(out: &mut String, c: char)
    ensures
        final(out)@ == old(out)@ + escaped_char(c),
{
    if c == '"' {
        out.append("\\\"");
    } else if c == '\\' {
        out.append("\\\\");
    } else if c == '\u{8}' {
        out.append("\\b");
    } else if c == '\t' {
        out.append("\\t");
    } else if c == '\n' {
        out.append("\\n");
    } else if c == '\u{c}' {
        out.append("\\f");
    } else if c == '\r' {
        out.append("\\r");
    } else if (c as u32) < 0x20 {
        out.append("\\u00");
        let d = c as u32;
        push_char(out, hex_digit_char(d / 16));
        push_char(out, hex_digit_char(d % 16));
        proof {
            assert(out@ =~= old(out)@ + escaped_char(c));
        }
    } else {
        push_char(out, c);
    }
}

pub(crate) fn push_escaped(out: &mut String, s: &str)
    ensures
        final(out)@ == old(out)@ + escaped(s@),
{
    let n = s.unicode_len();
    let mut i: usize = 0;
    while i < n
        invariant
            i <= n,
            n == s@.len(),
            out@ == old(out)@ + escaped(s@.take(i as int)),
        decreases n - i,
    {
        let c = s.get_char(i);
        push_escaped_char(out, c);
        proof {
            assert(s@.take(i as int + 1).drop_last() =~= s@.take(i as int));
            assert(s@.take(i as int + 1).last() == s@[i as int]);
            assert(out@ =~= old(out)@ + escaped(s@.take(i as int + 1)));
        }
        i = i + 1;
    }
    proof {
        assert(s@.take(n as int) =~= s@);
    }
}

pub(crate) fn push_json_string(out: &mut String, s: &str)
    ensures
        final(out)@ == old(out)@ + json_string(s@),
{
    out.append("\"");
    push_escaped(out, s);
    out.append("\"");
    proof {
        assert(out@ =~= old(out)@ + json_string(s@));
    }
}

pub(crate) fn push_decimal_u32(out: &mut String, n: u32)
    ensures
        final(out)@ == old(out)@ + decimal_digits(n as nat),
    decreases n,
{
    if n >= 10 {
        push_decimal_u32(out, n / 10);
    }
    push_char(out, hex_digit_char(n % 10));
    proof {
        assert(out@ =~= old(out)@ + decimal_digits(n as nat));
    }
}

pub(crate) fn push_decimal_i32(out: &mut String, n: i32)
    ensures
        final(out)@ == old(out)@ + decimal(n as int),
{
    if n < 0 {
        out.append("-");
        let mag: u32 = (-(n as i64)) as u32;
        assert(mag == -(n as int));
        push_decimal_u32(out, mag);
        proof {
            assert(out@ =~= old(out)@ + decimal(n as int));
        }
    } else {
        push_decimal_u32(out, n as u32);
    }
}

pub(crate) fn push_comma_joined(out: &mut String, pieces: &Vec<String>)
    ensures
        final(out)@ == old(out)@ + comma_join(pieces.deep_view()),
{
    let n = pieces.len();
    let mut i: usize = 0;
    while i < n
        invariant
            i <= n,
            n == pieces.len(),
            out@ == old(out)@ + comma_join(pieces.deep_view().take(i as int)),
        decreases n - i,
    {
        if i > 0 {
            out.append(",");
        }
        out.append(pieces[i].as_str());
        proof {
            lemma_comma_join_take(pieces.deep_view(), i as int);
            assert(pieces.deep_view()[i as int] == pieces@[i as int]@);
            assert(out@ =~= old(out)@ + comma_join(pieces.deep_view().take(i as int + 1)));
        }
        i = i + 1;
    }
    proof {
        assert(pieces.deep_view().take(n as int) =~= pieces.deep_view());
    }
}

/// A document member `key` followed by the JSON string literal for `v`.
pub(crate) fn keyed_string(key: &str, v: &str) -> (r: String)
    ensures
        r@ == key@ + json_string(v@),
{
    let mut out = String::new();
    out.append(key);
    push_json_string(&mut out, v);
    proof {
        assert(out@ =~= key@ + json_string(v@));
    }
    out
}

/// A document member `key` followed by `v` in quotes, unescaped.
pub(crate) fn keyed_quoted(key: &str, v: &str) -> (r: String)
    ensures
        r@ == key@ + quoted(v@),
{
    let mut out = String::new();
    out.append(key);
    out.append("\"");
    out.append(v);
    out.append("\"");
    proof {
        assert(out@ =~= key@ + quoted(v@));
    }
    out
}

/// A document member `key` followed by a boolean keyword.
pub(crate) fn keyed_bool(key: &str, b: bool) -> (r: String)
    ensures
        r@ == key@ + bool_text(b),
{
    let mut out = String::new();
    out.append(key);
    if b {
        out.append("true");
    } else {
        out.append("false");
    }
    proof {
        assert(out@ =~= key@ + bool_text(b));
    }
    out
}

/// A document member `key` followed by the decimal rendering of `n`.
pub(crate) fn keyed_decimal(key: &str, n: i32) -> (r: String)
    ensures
        r@ == key@ + decimal(n as int),
{
    let mut out = String::new();
    out.append(key);
    push_decimal_i32(&mut out, n);
    proof {
        assert(out@ =~= key@ + decimal(n as int));
    }
    out
}

/// A document member `key` followed by the given rendered value text.
pub(crate) fn keyed_raw(key: &str, rendered: &str) -> (r: String)
    ensures
        r@ == key@ + rendered@,
{
    let mut out = String::new();
    out.append(key);
    out.append(rendered);
    proof {
        assert(out@ =~= key@ + rendered@);
    }
    out
}

/// A document member `key` followed by the JSON array of string literals
/// for `ids`.
pub(crate) fn keyed_string_array(key: &str, ids: &Vec<String>) -> (r: String)
    ensures
        r@ == key@ + json_string_array(ids.deep_view()),
{
    let mut out = String::new();
    out.append(key);
    push_string_array(&mut out, ids);
    proof {
        assert(out@ =~= key@ + json_string_array(ids.deep_view()));
    }
    out
}

pub(crate) fn push_string_array(out: &mut String, ids: &Vec<String>)
    ensures
        final(out)@ == old(out)@ + json_string_array(ids.deep_view()),
{
    out.append("[");
    let mut rendered: Vec<String> = Vec::new();
    let n = ids.len();
    let mut i: usize = 0;
    while i < n
        invariant
            i <= n,
            n == ids.len(),
            rendered.deep_view() == string_literals(ids.deep_view().take(i as int)),
        decreases n - i,
    {
        let mut p = String::new();
        push_json_string(&mut p, ids[i].as_str());
        let ghost prev = rendered.deep_view();
        let ghost pv = p@;
        rendered.push(p);
        proof {
            assert(ids.deep_view()[i as int] == ids@[i as int]@);
            assert(pv == json_string(ids.deep_view()[i as int]));
            assert(rendered.deep_view() =~= prev.push(pv));
            assert(rendered.deep_view() =~= string_literals(ids.deep_view().take(i as int + 1)));
        }
        i = i + 1;
    }
    proof {
        assert(ids.deep_view().take(n as int) =~= ids.deep_view());
        assert(string_literals(ids.deep_view().take(n as int)) =~= string_literals(
            ids.deep_view(),
        ));
    }
    push_comma_joined(out, &rendered);
    out.append("]");
    proof {
        assert(out@ =~= old(out)@ + json_string_array(ids.deep_view()));
    }
}

} // verus!
