//! Character-sequence utilities shared by the tokenizer and the decoder:
//! whitespace trimming, string/character conversions, decimal rendering of
//! counters for error messages, and joining fields with a delimiter.

use vstd::prelude::*;
use vstd::string::StrSliceExecFns;
use vstd::string::StringExecFns;

verus! {

/// The Unicode white-space characters, the set that `str::trim` removes.
pub open spec fn is_space(c: char) -> bool {
    ||| c == '\u{9}'
    ||| c == '\u{a}'
    ||| c == '\u{b}'
    ||| c == '\u{c}'
    ||| c == '\u{d}'
    ||| c == ' '
    ||| c == '\u{85}'
    ||| c == '\u{a0}'
    ||| c == '\u{1680}'
    ||| c == '\u{2000}'
    ||| c == '\u{2001}'
    ||| c == '\u{2002}'
    ||| c == '\u{2003}'
    ||| c == '\u{2004}'
    ||| c == '\u{2005}'
    ||| c == '\u{2006}'
    ||| c == '\u{2007}'
    ||| c == '\u{2008}'
    ||| c == '\u{2009}'
    ||| c == '\u{200a}'
    ||| c == '\u{2028}'
    ||| c == '\u{2029}'
    ||| c == '\u{202f}'
    ||| c == '\u{205f}'
    ||| c == '\u{3000}'
}

/// Decides membership in the white-space set of [`is_space`].
pub fn is_space_char(c: char) -> (r: bool)
    ensures
        r == is_space(c),
{
    match c {
        '\u{9}' | '\u{a}' | '\u{b}' | '\u{c}' | '\u{d}' | ' ' | '\u{85}' | '\u{a0}'
            | '\u{1680}' | '\u{2000}' | '\u{2001}' | '\u{2002}' | '\u{2003}' | '\u{2004}'
            | '\u{2005}' | '\u{2006}' | '\u{2007}' | '\u{2008}' | '\u{2009}' | '\u{200a}'
            | '\u{2028}' | '\u{2029}' | '\u{202f}' | '\u{205f}' | '\u{3000}' => true,
        _ => false,
    }
}

/// The sequence with the leading white space removed.
pub open spec fn trim_start(s: Seq<char>) -> Seq<char>
    decreases s.len(),
{
    if s.len() > 0 && is_space(s.first()) {
        trim_start(s.drop_first())
    } else {
        s
    }
}

/// The sequence with the trailing white space removed.
pub open spec fn trim_end(s: Seq<char>) -> Seq<char>
    decreases s.len(),
{
    if s.len() > 0 && is_space(s.last()) {
        trim_end(s.drop_last())
    } else {
        s
    }
}

/// The sequence with white space removed from both ends, as `str::trim`
/// leaves it.
pub open spec fn trim(s: Seq<char>) -> Seq<char> {
    trim_end(trim_start(s))
}

/// Copies the characters of `s` into a vector.
pub fn str_chars(s: &str) -> (r: Vec<char>)
    ensures
        r@ == s@,
{
    let n: usize = s.unicode_len();
    let mut r: Vec<char> = Vec::new();
    let mut i: usize = 0;
    while i < n
        invariant
            n == s@.len(),
            i <= n,
            r@ == s@.subrange(0, i as int),
        decreases n - i,
    {
        r.push(s.get_char(i));
        proof {
            assert(s@.subrange(0, i + 1) =~= s@.subrange(0, i as int).push(s@[i as int]));
        }
        i = i + 1;
    }
    proof {
        assert(s@.subrange(0, n as int) =~= s@);
    }
    r
}

/// Relies on `String::from_iter` (through `Iterator::collect`): the resulting
/// string holds exactly the characters of the iterator, in order.
#[verifier::external_body]
pub fn chars_to_string(v: &Vec<char>) -> (s: String)
    ensures
        s@ == v@,
{
    v.iter().collect()
}

/// Compares a character vector with a string slice.
pub fn chars_eq_str(v: &Vec<char>, s: &str) -> (r: bool)
    ensures
        r == (v@ == s@),
{
    let n: usize = s.unicode_len();
    if v.len() != n {
        proof {
            assert(v@ != s@) by {
                if v@ == s@ {
                    assert(v@.len() == s@.len());
                }
            }
        }
        return false;
    }
    let mut i: usize = 0;
    while i < n
        invariant
            i <= n,
            n == s@.len(),
            v@.len() == n,
            forall|j: int| 0 <= j < i ==> v@[j] == s@[j],
        decreases n - i,
    {
        if v[i] != s.get_char(i) {
            proof {
                assert(v@ != s@) by {
                    if v@ == s@ {
                        assert(v@[i as int] == s@[i as int]);
                    }
                }
            }
            return false;
        }
        i = i + 1;
    }
    proof {
        assert(v@ =~= s@);
    }
    true
}

/// Removes white space from both ends of a character vector.
pub fn trim_chars(v: &Vec<char>) -> (r: Vec<char>)
    ensures
        r@ == trim(v@),
{
    let n: usize = v.len();
    proof {
        assert(v@.subrange(0, n as int) =~= v@);
    }
    let mut start: usize = 0;
    while start < n && is_space_char(v[start])
        invariant
            start <= n,
            n == v@.len(),
            trim_start(v@) == trim_start(v@.subrange(start as int, n as int)),
        decreases n - start,
    {
        proof {
            let sub = v@.subrange(start as int, n as int);
            assert(sub.first() == v@[start as int]);
            assert(sub.drop_first() =~= v@.subrange(start + 1, n as int));
        }
        start = start + 1;
    }
    proof {
        let sub = v@.subrange(start as int, n as int);
        if start < n {
            assert(sub.first() == v@[start as int]);
        }
        assert(trim_start(sub) == sub);
        assert(trim_start(v@) == v@.subrange(start as int, n as int));
    }
    let mut end: usize = n;
    while end > start && is_space_char(v[end - 1])
        invariant
            start <= end <= n,
            n == v@.len(),
            trim_end(v@.subrange(start as int, n as int)) == trim_end(
                v@.subrange(start as int, end as int),
            ),
        decreases end,
    {
        proof {
            let sub = v@.subrange(start as int, end as int);
            assert(sub.last() == v@[end - 1]);
            assert(sub.drop_last() =~= v@.subrange(start as int, end - 1));
        }
        end = end - 1;
    }
    proof {
        let sub = v@.subrange(start as int, end as int);
        if end > start {
            assert(sub.last() == v@[end - 1]);
        }
        assert(trim_end(sub) == sub);
        assert(trim(v@) == v@.subrange(start as int, end as int));
    }
    let mut r: Vec<char> = Vec::new();
    proof {
        assert(Seq::<char>::empty() =~= v@.subrange(start as int, start as int));
    }
    let mut i: usize = start;
    while i < end
        invariant
            start <= i <= end <= n,
            n == v@.len(),
            r@ == v@.subrange(start as int, i as int),
        decreases end - i,
    {
        r.push(v[i]);
        proof {
            assert(v@.subrange(start as int, i + 1) =~= v@.subrange(start as int, i as int).push(
                v@[i as int],
            ));
        }
        i = i + 1;
    }
    r
}

/// One decimal digit as a character.
pub open spec fn dec_digit(d: nat) -> char {
    if d == 0 {
        '0'
    } else if d == 1 {
        '1'
    } else if d == 2 {
        '2'
    } else if d == 3 {
        '3'
    } else if d == 4 {
        '4'
    } else if d == 5 {
        '5'
    } else if d == 6 {
        '6'
    } else if d == 7 {
        '7'
    } else if d == 8 {
        '8'
    } else {
        '9'
    }
}

/// The decimal rendering of a natural number, without sign or padding.
pub open spec fn dec_rep(n: nat) -> Seq<char>
    decreases n,
{
    if n < 10 {
        seq![dec_digit(n)]
    } else {
        dec_rep(n / 10).push(dec_digit(n % 10))
    }
}

/// One decimal digit value as a character.
fn dec_digit_char(d: usize) -> (c: char)
    requires
        d < 10,
    ensures
        c == dec_digit(d as nat),
{
    match d {
        0 => '0',
        1 => '1',
        2 => '2',
        3 => '3',
        4 => '4',
        5 => '5',
        6 => '6',
        7 => '7',
        8 => '8',
        _ => '9',
    }
}

/// Renders a number in decimal, as [`dec_rep`] describes it.
pub fn dec_string(n: usize) -> (s: String)
    ensures
        s@ == dec_rep(n as nat),
{
    let mut out: Vec<char> = Vec::new();
    if n == 0 {
        out.push('0');
        proof {
            assert(out@ =~= dec_rep(0));
        }
        return chars_to_string(&out);
    }
    let mut m: usize = n;
    while m > 0
        invariant
            m > 0 ==> dec_rep(n as nat) == dec_rep(m as nat) + out@,
            m == 0 ==> dec_rep(n as nat) == out@,
        decreases m,
    {
        let d: usize = m % 10;
        let c = dec_digit_char(d);
        let ghost before = out@;
        out.insert(0, c);
        proof {
            assert(out@ =~= seq![c] + before);
        }
        let next: usize = m / 10;
        proof {
            if m < 10 {
                assert(dec_rep(m as nat) == seq![dec_digit(m as nat)]);
                assert(d == m);
                assert(dec_rep(n as nat) =~= seq![c] + before);
            } else {
                assert(dec_rep(m as nat) == dec_rep((m as nat) / 10).push(
                    dec_digit((m as nat) % 10),
                ));
                assert(dec_rep((m as nat) / 10).push(c) =~= dec_rep((m as nat) / 10) + seq![c]);
                assert(dec_rep(n as nat) =~= dec_rep((next as nat)) + (seq![c] + before));
            }
        }
        m = next;
    }
    chars_to_string(&out)
}

/// The fields joined into one sequence with a comma between neighbours.
pub open spec fn join_comma(xs: Seq<Seq<char>>) -> Seq<char>
    decreases xs.len(),
{
    if xs.len() == 0 {
        Seq::empty()
    } else if xs.len() == 1 {
        xs[0]
    } else {
        join_comma(xs.drop_last()) + seq![','] + xs.last()
    }
}

/// Joins the fields from index `from` on with commas, as `[..].join(",")`
/// renders them.
pub fn join_fields_comma(fields: &Vec<String>, from: usize) -> (r: String)
    requires
        from <= fields@.len(),
    ensures
        r@ == join_comma(fields.deep_view().skip(from as int)),
{
    let mut r = String::new();
    let n: usize = fields.len();
    let mut i: usize = from;
    proof {
        reveal_strlit(",");
    }
    while i < n
        invariant
            from <= i <= n,
            n == fields@.len(),
            fields.deep_view().len() == n,
            r@ == join_comma(fields.deep_view().subrange(from as int, i as int)),
            ","@ =~= seq![','],
        decreases n - i,
    {
        let ghost dv = fields.deep_view();
        proof {
            assert(dv.subrange(from as int, i + 1).drop_last() =~= dv.subrange(
                from as int,
                i as int,
            ));
            assert(dv.subrange(from as int, i + 1).last() == dv[i as int]);
            assert(dv[i as int] == fields@[i as int]@);
        }
        if i > from {
            r.append(",");
        }
        r.append(fields[i].as_str());
        proof {
            if i == from {
                assert(dv.subrange(from as int, i + 1).len() == 1);
                assert(dv.subrange(from as int, i + 1)[0] == dv[i as int]);
                assert(r@ =~= dv[i as int]);
            } else {
                assert(r@ =~= join_comma(dv.subrange(from as int, i as int)) + seq![',']
                    + dv[i as int]);
            }
        }
        i = i + 1;
    }
    proof {
        assert(fields.deep_view().subrange(from as int, n as int) =~= fields.deep_view().skip(
            from as int,
        ));
    }
    r
}

} // verus!
