//! CSV field escaping for the cycle label file (RFC 4180).

use crate::text::{chars_of, contains_char, push_char};
use vstd::prelude::*;

verus! {

/// A field must be quoted when it holds a comma, a double quote or a newline.
pub open spec fn needs_quoting(s: Seq<char>) -> bool {
    s.contains(',') || s.contains('"') || s.contains('\n')
}

/// `s` with every double quote doubled.
pub open spec fn double_quotes(s: Seq<char>) -> Seq<char>
    decreases s.len(),
{
    if s.len() == 0 {
        Seq::empty()
    } else {
        double_quotes(s.drop_last()) + (if s.last() == '"' {
            seq!['"', '"']
        } else {
            seq![s.last()]
        })
    }
}

/// The CSV form of a field.
pub open spec fn csv_field(s: Seq<char>) -> Seq<char> {
    if needs_quoting(s) {
        seq!['"'] + double_quotes(s) + seq!['"']
    } else {
        s
    }
}

/// Escape a CSV field: a field holding a comma, double quote or newline is
/// wrapped in double quotes with its inner double quotes doubled; any other
/// field is unchanged.
pub fn csv_escape(s: &str) -> (r: String)
    ensures
        r@ == csv_field(s@),
{
    let cs = chars_of(s);
    let quote = contains_char(&cs, ',') || contains_char(&cs, '"') || contains_char(&cs, '\n');
    let mut out = String::new();
    if !quote {
        return s.to_owned();
    }
    push_char(&mut out, '"');
    let mut i: usize = 0;
    while i < cs.len()
        invariant
            i <= cs@.len(),
            cs@ == s@,
            out@ == seq!['"'] + double_quotes(cs@.take(i as int)),
        decreases cs@.len() - i,
    {
        let c = cs[i];
        if c == '"' {
            push_char(&mut out, '"');
            push_char(&mut out, '"');
        } else {
            push_char(&mut out, c);
        }
        proof {
            assert(cs@.take(i + 1).drop_last() =~= cs@.take(i as int));
        }
        i = i + 1;
    }
    push_char(&mut out, '"');
    proof {
        assert(cs@.take(cs@.len() as int) =~= cs@);
    }
    out
}

/// Inverse of `double_quotes`: each pair of double quotes reads back as one.
pub open spec fn undouble_quotes(t: Seq<char>) -> Seq<char>
    decreases t.len(),
{
    if t.len() == 0 {
        Seq::empty()
    } else if t.len() >= 2 && t.last() == '"' && t[t.len() - 2] == '"' {
        undouble_quotes(t.subrange(0, t.len() - 2)) + seq!['"']
    } else {
        undouble_quotes(t.drop_last()) + seq![t.last()]
    }
}

/// How a CSV reader reads a field back: a field wrapped in double quotes
/// loses them and has each doubled quote read as one; any other field is
/// taken as it stands.
pub open spec fn read_csv_field(t: Seq<char>) -> Seq<char> {
    if t.len() >= 2 && t[0] == '"' && t.last() == '"' {
        undouble_quotes(t.subrange(1, t.len() - 1))
    } else {
        t
    }
}

/// Doubling the quotes of a text and reading the pairs back gives the text.
proof fn lemma_undouble_after_double(s: Seq<char>)
    ensures
        undouble_quotes(double_quotes(s)) == s,
    decreases s.len(),
{
    if s.len() > 0 {
        lemma_undouble_after_double(s.drop_last());
        let x = double_quotes(s.drop_last());
        if s.last() == '"' {
            let t = x + seq!['"', '"'];
            assert(t.subrange(0, t.len() - 2) =~= x);
        } else {
            let t = x + seq![s.last()];
            assert(t.drop_last() =~= x);
        }
        assert(s =~= s.drop_last() + seq![s.last()]);
    }
}

/// Every field written by `csv_escape` reads back as the text it came from, so
/// commas, quotes and newlines in a field never break a row.
pub proof fn lemma_csv_roundtrip(s: Seq<char>)
    ensures
        read_csv_field(csv_field(s)) == s,
{
    if needs_quoting(s) {
        let t = seq!['"'] + double_quotes(s) + seq!['"'];
        assert(t.subrange(1, t.len() - 1) =~= double_quotes(s));
        lemma_undouble_after_double(s);
    } else if s.len() >= 2 && s[0] == '"' {
        assert(s.contains('"'));
    }
}

} // verus!
