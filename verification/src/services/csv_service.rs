//! Escaping of CSV fields.
use vstd::prelude::*;
use crate::text::{
    chars_of, contains_char, extend_chars, is_ws, leading_ws, lemma_leading_ws, occurs_at, replace_all,
    replace_chars, string_of, trim_start, trim_start_chars,
};

verus! {

/// Characters with which a spreadsheet would start a formula.
pub open spec fn is_formula_start(c: char) -> bool {
    c == '=' || c == '+' || c == '-' || c == '@'
}

/// The field with a `'` in front when its first non-whitespace character
/// would start a formula.
pub open spec fn formula_guarded(s: Seq<char>) -> Seq<char> {
    let t = trim_start(s);
    if t.len() > 0 && is_formula_start(t[0]) {
        seq!['\''] + s
    } else {
        s
    }
}

/// A field that must be quoted in CSV.
pub open spec fn needs_quoting(s: Seq<char>) -> bool {
    s.contains(',') || s.contains('\n') || s.contains('\r') || s.contains('"')
}

/// The field in double quotes, each double quote inside doubled.
pub open spec fn quoted(s: Seq<char>) -> Seq<char> {
    seq!['"'] + replace_all(s, seq!['"'], seq!['"', '"']) + seq!['"']
}

/// `escape_field`: formula guard, then RFC 4180 quoting where needed.
pub open spec fn escaped_field(s: Seq<char>) -> Seq<char> {
    let safe = formula_guarded(s);
    if needs_quoting(safe) {
        quoted(safe)
    } else {
        safe
    }
}

/// Quoting used by the log and export files: commas, newlines and quotes only.
pub open spec fn escaped_csv(s: Seq<char>) -> Seq<char> {
    if s.contains(',') || s.contains('\n') || s.contains('"') {
        quoted(s)
    } else {
        s
    }
}

/// `s` in double quotes with its double quotes doubled.
pub fn quote_chars(s: &[char]) -> (r: Vec<char>)
    ensures
        r@ == quoted(s@),
{
    let mut from: Vec<char> = Vec::new();
    from.push('"');
    let mut to: Vec<char> = Vec::new();
    to.push('"');
    to.push('"');
    assert(from@ =~= seq!['"']);
    assert(to@ =~= seq!['"', '"']);
    let inner = replace_chars(s, from.as_slice(), to.as_slice());
    let mut r: Vec<char> = Vec::new();
    r.push('"');
    extend_chars(&mut r, inner.as_slice());
    r.push('"');
    assert(r@ =~= quoted(s@));
    r
}

/// Escapes a CSV field as RFC 4180 describes and keeps spreadsheets from
/// running it as a formula.
pub fn escape_field(field: &str) -> (r: String)
    ensures
        r@ == escaped_field(field@),
{
    let v = chars_of(field);
    let t = trim_start_chars(v.as_slice());
    let guard = t.len() > 0 && (t[0] == '=' || t[0] == '+' || t[0] == '-' || t[0] == '@');
    let mut safe: Vec<char> = Vec::new();
    if guard {
        safe.push('\'');
    }
    extend_chars(&mut safe, v.as_slice());
    assert(safe@ =~= formula_guarded(field@));
    let s = safe.as_slice();
    if contains_char(s, ',') || contains_char(s, '\n') || contains_char(s, '\r') || contains_char(
        s,
        '"',
    ) {
        let q = quote_chars(s);
        string_of(q.as_slice())
    } else {
        string_of(s)
    }
}

/// Quotes a field that holds a comma, a newline or a double quote.
pub fn escape_csv(field: &str) -> (r: String)
    ensures
        r@ == escaped_csv(field@),
{
    let v = chars_of(field);
    let s = v.as_slice();
    if contains_char(s, ',') || contains_char(s, '\n') || contains_char(s, '"') {
        let q = quote_chars(s);
        string_of(q.as_slice())
    } else {
        string_of(s)
    }
}

// ---------------------------------------------------------------------------
// Laws
// ---------------------------------------------------------------------------

/// How a CSV reader decodes the inside of a quoted field: `""` stands for `"`.
pub open spec fn unquote_inner(t: Seq<char>) -> Seq<char>
    decreases t.len(),
{
    if t.len() == 0 {
        t
    } else if t.len() >= 2 && t[0] == '"' && t[1] == '"' {
        seq!['"'] + unquote_inner(t.skip(2))
    } else {
        seq![t[0]] + unquote_inner(t.drop_first())
    }
}

/// How a CSV reader decodes a field: a quoted field loses its quotes and has
/// its doubled quotes undoubled; any other field is read as it stands.
pub open spec fn csv_decode(t: Seq<char>) -> Seq<char> {
    if t.len() >= 2 && t[0] == '"' && t.last() == '"' {
        unquote_inner(t.subrange(1, t.len() - 1))
    } else {
        t
    }
}

proof fn lemma_unquote_replace(s: Seq<char>)
    ensures
        unquote_inner(replace_all(s, seq!['"'], seq!['"', '"'])) == s,
    decreases s.len(),
{
    let from = seq!['"'];
    let to = seq!['"', '"'];
    if s.len() > 0 {
        if occurs_at(s, from, 0) {
            assert(s[0] == '"') by {
                assert(s.subrange(0, 1)[0] == s[0]);
            }
            lemma_unquote_replace(s.skip(1));
            let rest = replace_all(s.skip(1), from, to);
            let t = to + rest;
            assert(t.skip(2) =~= rest);
            assert(s =~= seq!['"'] + s.skip(1));
        } else {
            assert(s[0] != '"') by {
                if s[0] == '"' {
                    assert(s.subrange(0, 1) =~= from);
                }
            }
            lemma_unquote_replace(s.drop_first());
            let rest = replace_all(s.drop_first(), from, to);
            let t = seq![s[0]] + rest;
            assert(t.drop_first() =~= rest);
            assert(s =~= seq![s[0]] + s.drop_first());
        }
    }
}

proof fn lemma_leading_ws_zero(s: Seq<char>)
    requires
        s.len() > 0,
        !is_ws(s[0]),
    ensures
        trim_start(s) == s,
{
    assert(s.skip(0) =~= s);
}

/// A field escaped by `escape_field` decodes back to the field itself, with
/// the `'` guard in front exactly when the field would start a formula.
pub proof fn law_escape_field_decodes(s: Seq<char>)
    ensures
        csv_decode(escaped_field(s)) == formula_guarded(s),
{
    let safe = formula_guarded(s);
    if needs_quoting(safe) {
        lemma_unquote_replace(safe);
        let q = quoted(safe);
        let inner = replace_all(safe, seq!['"'], seq!['"', '"']);
        assert(q.subrange(1, q.len() - 1) =~= inner);
    } else {
        if safe.len() >= 2 && safe[0] == '"' {
            assert(safe.contains('"'));
        }
    }
}

/// A field escaped by `escape_field` never reaches a spreadsheet as a
/// formula: after decoding and after leading whitespace, it does not start
/// with `=`, `+`, `-` or `@`.
pub proof fn law_escape_field_blocks_formulas(s: Seq<char>)
    ensures
        trim_start(csv_decode(escaped_field(s))).len() > 0 ==> !is_formula_start(
            trim_start(csv_decode(escaped_field(s)))[0],
        ),
{
    law_escape_field_decodes(s);
    let t = trim_start(s);
    lemma_leading_ws(s);
    if t.len() > 0 && is_formula_start(t[0]) {
        let g = seq!['\''] + s;
        lemma_leading_ws_zero(g);
    } else {
        if t.len() > 0 {
            assert(t[0] == s[leading_ws(s) as int]);
        }
    }
}

/// Escaping leaves a field that needs no quoting and starts no formula as it is.
pub proof fn law_escape_field_plain_unchanged(s: Seq<char>)
    requires
        !needs_quoting(s),
        !(trim_start(s).len() > 0 && is_formula_start(trim_start(s)[0])),
    ensures
        escaped_field(s) == s,
{
}

/// A field written by `escape_csv` (the exported tables and the comparison
/// file) decodes back to the field itself.
pub proof fn law_escape_csv_decodes(s: Seq<char>)
    ensures
        csv_decode(escaped_csv(s)) == s,
{
    if s.contains(',') || s.contains('\n') || s.contains('"') {
        lemma_unquote_replace(s);
        let q = quoted(s);
        let inner = replace_all(s, seq!['"'], seq!['"', '"']);
        assert(q.subrange(1, q.len() - 1) =~= inner);
    } else {
        if s.len() >= 2 && s[0] == '"' {
            assert(s.contains('"'));
        }
    }
}

} // verus!
