//! The record tokenizer: splits one line of comma-delimited text into
//! trimmed fields, honouring double-quoted segments that may themselves
//! contain the delimiter.  Quote characters toggle an in-quotes flag and are
//! consumed, never emitted; two quote characters in a row read as
//! close-then-open, not as an escaped quote.  Malformed quoting is absorbed,
//! never rejected.

use crate::text::chars_to_string;
use crate::text::str_chars;
use crate::text::trim;
use crate::text::trim_chars;
use vstd::prelude::*;

verus! {

/// The scan state after reading `s`: the completed fields (already trimmed),
/// the raw buffer of the field being read, and whether the scan stands
/// inside a quoted segment.
pub open spec fn csv_scan(s: Seq<char>) -> (Seq<Seq<char>>, Seq<char>, bool)
    decreases s.len(),
{
    if s.len() == 0 {
        (Seq::<Seq<char>>::empty(), Seq::<char>::empty(), false)
    } else {
        let st = csv_scan(s.drop_last());
        let c = s.last();
        if c == '"' {
            (st.0, st.1, !st.2)
        } else if c == ',' && !st.2 {
            (st.0.push(trim(st.1)), Seq::<char>::empty(), st.2)
        } else {
            (st.0, st.1.push(c), st.2)
        }
    }
}

/// The fields of one line: the completed fields of the scan, followed by the
/// trimmed final buffer whenever that buffer is non-empty or the line ends in
/// the delimiter — so a trailing delimiter yields an explicit empty last
/// field, while a line without one emits no extra field.
pub open spec fn spec_split_csv_line(s: Seq<char>) -> Seq<Seq<char>> {
    let st = csv_scan(s);
    if st.1.len() > 0 || (s.len() > 0 && s.last() == ',') {
        st.0.push(trim(st.1))
    } else {
        st.0
    }
}

/// Parse a single CSV line into fields, honoring quoted segments.
pub fn split_csv_line(line: &str) -> (fields: Vec<String>)
    ensures
        fields.deep_view() == spec_split_csv_line(line@),
{
    let chars = str_chars(line);
    let n: usize = chars.len();
    let mut fields: Vec<String> = Vec::new();
    let mut current: Vec<char> = Vec::new();
    let mut in_quotes: bool = false;
    let mut i: usize = 0;
    proof {
        assert(line@.take(0) =~= Seq::<char>::empty());
        assert(fields.deep_view() =~= Seq::<Seq<char>>::empty());
    }
    while i < n
        invariant
            i <= n,
            n == line@.len(),
            chars@ == line@,
            fields.deep_view() == csv_scan(line@.take(i as int)).0,
            current@ == csv_scan(line@.take(i as int)).1,
            in_quotes == csv_scan(line@.take(i as int)).2,
        decreases n - i,
    {
        let c = chars[i];
        proof {
            assert(line@.take(i + 1).drop_last() =~= line@.take(i as int));
            assert(line@.take(i + 1).last() == line@[i as int]);
        }
        if c == '"' {
            in_quotes = !in_quotes;
        } else if c == ',' && !in_quotes {
            let t = trim_chars(&current);
            let s = chars_to_string(&t);
            let ghost before = fields.deep_view();
            fields.push(s);
            proof {
                assert(fields.deep_view() =~= before.push(s@));
            }
            current = Vec::new();
        } else {
            current.push(c);
        }
        i = i + 1;
    }
    proof {
        assert(line@.take(n as int) =~= line@);
    }
    if current.len() > 0 || (n > 0 && chars[n - 1] == ',') {
        let t = trim_chars(&current);
        let s = chars_to_string(&t);
        let ghost before = fields.deep_view();
        fields.push(s);
        proof {
            assert(fields.deep_view() =~= before.push(s@));
        }
    }
    fields
}

/// A line with pending field content that ends in an unquoted delimiter
/// splits into the fields of the line without that delimiter, followed by one
/// explicit empty field.
pub proof fn lemma_trailing_delimiter(t: Seq<char>)
    requires
        !csv_scan(t).2,
        csv_scan(t).1.len() > 0,
    ensures
        spec_split_csv_line(t.push(',')) == spec_split_csv_line(t).push(Seq::<char>::empty()),
{
    let s = t.push(',');
    assert(s.drop_last() =~= t);
    assert(s.last() == ',');
    assert(csv_scan(s).0 == csv_scan(t).0.push(trim(csv_scan(t).1)));
    assert(csv_scan(s).1 =~= Seq::<char>::empty());
    assert(trim(Seq::<char>::empty()) =~= Seq::<char>::empty());
    assert(spec_split_csv_line(s) == csv_scan(s).0.push(Seq::<char>::empty()));
    assert(spec_split_csv_line(t) == csv_scan(t).0.push(trim(csv_scan(t).1)));
}

} // verus!
