//! The shard loader: runs tokenizer and decoder over every line of a source,
//! already read into memory as plain lines.  The first line is discarded
//! unconditionally as a header, blank lines are skipped, and the operation is
//! fail-fast — the first undecodable row aborts the whole load with its
//! 1-based line number (the header counts as line 1), and no partial result
//! survives.

use crate::record::decode_node_record;
use crate::record::insufficient_fields_msg;
use crate::record::record_resolves;
use crate::record::CpvmLinkerError;
use crate::record::CpvmNodeRecord;
use crate::text::trim;
use crate::text::trim_chars;
use crate::text::str_chars;
use crate::tokenizer::spec_split_csv_line;
use crate::tokenizer::split_csv_line;
use vstd::prelude::*;

verus! {

/// A line whose trimmed content is empty; the loader skips such lines.
pub open spec fn line_is_blank(l: Seq<char>) -> bool {
    trim(l).len() == 0
}

/// A data line decodes exactly when its tokenization has at least twelve
/// fields.
pub open spec fn line_decodes(l: Seq<char>) -> bool {
    spec_split_csv_line(l).len() >= 12
}

/// The index of the first data line, at `from` or later, that is neither
/// blank nor decodable — the line a load of these lines fails on.
pub open spec fn first_undecodable_line(lines: Seq<Seq<char>>, from: nat) -> Option<int>
    decreases lines.len() - from,
{
    if from >= lines.len() {
        None
    } else if !line_is_blank(lines[from as int]) && !line_decodes(lines[from as int]) {
        Some(from as int)
    } else {
        first_undecodable_line(lines, from + 1)
    }
}

/// The tokenized rows of the non-blank data lines among `lines[1..upto]`, in
/// source order.
pub open spec fn data_rows_upto(lines: Seq<Seq<char>>, upto: int) -> Seq<Seq<Seq<char>>>
    decreases upto,
{
    if upto <= 1 {
        Seq::<Seq<Seq<char>>>::empty()
    } else if line_is_blank(lines[upto - 1]) {
        data_rows_upto(lines, upto - 1)
    } else {
        data_rows_upto(lines, upto - 1).push(spec_split_csv_line(lines[upto - 1]))
    }
}

/// Loads node records from the lines of one shard: skips the header and the
/// blank lines, tokenizes and decodes every remaining line in order, and
/// aborts on the first undecodable row, reporting its 1-based line number and
/// field count and returning no records.
pub fn load_node_records(lines: &Vec<String>) -> (r: Result<Vec<CpvmNodeRecord>, CpvmLinkerError>)
    ensures
        match r {
            Ok(recs) => {
                &&& first_undecodable_line(lines.deep_view(), 1) is None
                &&& recs@.len() == data_rows_upto(lines.deep_view(), lines@.len() as int).len()
                &&& forall|k: int|
                    0 <= k < recs@.len() ==> record_resolves(
                        #[trigger] recs@[k],
                        data_rows_upto(lines.deep_view(), lines@.len() as int)[k],
                    )
            },
            Err(e) => {
                &&& first_undecodable_line(lines.deep_view(), 1) is Some
                &&& (e matches CpvmLinkerError::Parse(m) && m@ == insufficient_fields_msg(
                    (first_undecodable_line(lines.deep_view(), 1)->0 + 1) as nat,
                    spec_split_csv_line(
                        lines.deep_view()[first_undecodable_line(lines.deep_view(), 1)->0],
                    ).len(),
                ))
            },
        },
{
    let ghost dv = lines.deep_view();
    proof {
        assert(forall|j: int| 0 <= j < dv.len() ==> dv[j] == lines@[j]@);
    }
    let n: usize = lines.len();
    let mut recs: Vec<CpvmNodeRecord> = Vec::new();
    if n == 0 {
        return Ok(recs);
    }
    let mut i: usize = 1;
    while i < n
        invariant
            1 <= i <= n,
            n == lines@.len(),
            dv == lines.deep_view(),
            dv.len() == n,
            forall|j: int| 0 <= j < dv.len() ==> dv[j] == lines@[j]@,
            first_undecodable_line(dv, 1) == first_undecodable_line(dv, i as nat),
            recs@.len() == data_rows_upto(dv, i as int).len(),
            forall|k: int|
                0 <= k < recs@.len() ==> record_resolves(
                    #[trigger] recs@[k],
                    data_rows_upto(dv, i as int)[k],
                ),
        decreases n - i,
    {
        let line = &lines[i];
        let chars = str_chars(line.as_str());
        let t = trim_chars(&chars);
        if t.len() == 0 {
            proof {
                assert(line_is_blank(dv[i as int]));
                assert(data_rows_upto(dv, i + 1) == data_rows_upto(dv, i as int));
                assert(first_undecodable_line(dv, i as nat) == first_undecodable_line(
                    dv,
                    (i + 1) as nat,
                ));
            }
        } else {
            proof {
                assert(!line_is_blank(dv[i as int]));
            }
            let fields = split_csv_line(line.as_str());
            proof {
                assert(fields@.len() == fields.deep_view().len());
                assert(fields.deep_view() == spec_split_csv_line(dv[i as int]));
            }
            match decode_node_record(&fields, i + 1) {
                Ok(rec) => {
                    let ghost before = recs@;
                    recs.push(rec);
                    proof {
                        assert(line_decodes(dv[i as int]));
                        assert(data_rows_upto(dv, i + 1) == data_rows_upto(dv, i as int).push(
                            spec_split_csv_line(dv[i as int]),
                        ));
                        assert(first_undecodable_line(dv, i as nat) == first_undecodable_line(
                            dv,
                            (i + 1) as nat,
                        ));
                    }
                },
                Err(e) => {
                    proof {
                        assert(!line_decodes(dv[i as int]));
                        assert(first_undecodable_line(dv, i as nat) == Some(i as int));
                    }
                    return Err(e);
                },
            }
        }
        i = i + 1;
    }
    proof {
        assert(first_undecodable_line(dv, n as nat) is None);
    }
    Ok(recs)
}

} // verus!
