use vstd::prelude::*;

use crate::text::{chars_of, span, span_end, Run};

verus! {

/// One update record as found in the text: the package name and the text between the
/// parentheses that follow it.
pub struct RawRecord {
    pub name: String,
    pub fragment: String,
}

impl View for RawRecord {
    type V = (Seq<char>, Seq<char>);

    open spec fn view(&self) -> (Seq<char>, Seq<char>) {
        (self.name@, self.fragment@)
    }
}

/// The name and fragment of each record.
pub open spec fn record_views(rs: Seq<RawRecord>) -> Seq<(Seq<char>, Seq<char>)> {
    rs.map_values(|x: RawRecord| x@)
}

/// Whether the marker word `Inst` starts at `i`.
pub open spec fn marker_at(s: Seq<char>, i: int) -> bool {
    0 <= i && i + 4 <= s.len() && s[i] == 'I' && s[i + 1] == 'n' && s[i + 2] == 's' && s[i + 3]
        == 't'
}

/// The record that starts at `i`, if one does: `Inst`, blanks, a name of non-blank
/// characters, blanks, `(`, a non-empty fragment without `)`, then `)`.
/// The result is `(name start, name end, fragment start, fragment end)`; the closing
/// parenthesis stands at the fragment's end.
pub open spec fn record_at(s: Seq<char>, i: int) -> Option<(int, int, int, int)> {
    if !marker_at(s, i) {
        None
    } else {
        let b = span(s, i + 4, Run::Blank);
        let c = span(s, b, Run::Token);
        let d = span(s, c, Run::Blank);
        let e = span(s, d + 1, Run::Group);
        if i + 4 < b && b < c && c < d && d < s.len() && s[d] == '(' && d + 1 < e && e < s.len() {
            Some((b, c, d + 1, e))
        } else {
            None
        }
    }
}

/// The records of `s` found from `i` on, left to right: where one starts, the next
/// search begins after its closing parenthesis; elsewhere, one character further.
pub open spec fn records_from(s: Seq<char>, i: int) -> Seq<(Seq<char>, Seq<char>)>
    decreases s.len() - i,
{
    if i < 0 || i >= s.len() {
        seq![]
    } else {
        match record_at(s, i) {
            Some(m) => seq![(s.subrange(m.0, m.1), s.subrange(m.2, m.3))] + records_from(
                s,
                m.3 + 1,
            ),
            None => records_from(s, i + 1),
        }
    }
}

/// All records of `s`, in document order.
pub open spec fn records_of(s: Seq<char>) -> Seq<(Seq<char>, Seq<char>)> {
    records_from(s, 0)
}

fn record_at_exec(v: &Vec<char>, i: usize) -> (r: Option<(usize, usize, usize, usize)>)
    requires
        i < v.len(),
    ensures
        match r {
            Some(m) => record_at(v@, i as int) == Some(
                (m.0 as int, m.1 as int, m.2 as int, m.3 as int),
            ) && m.3 < v.len(),
            None => record_at(v@, i as int) is None,
        },
{
    let n = v.len();
    if n < 4 || i > n - 4 {
        return None;
    }
    if !(v[i] == 'I' && v[i + 1] == 'n' && v[i + 2] == 's' && v[i + 3] == 't') {
        return None;
    }
    let b = span_end(v, i + 4, Run::Blank);
    if b == i + 4 {
        return None;
    }
    let c = span_end(v, b, Run::Token);
    if c == b {
        return None;
    }
    let d = span_end(v, c, Run::Blank);
    if d == c || d >= n || v[d] != '(' {
        return None;
    }
    let e = span_end(v, d + 1, Run::Group);
    if e == d + 1 || e >= n {
        return None;
    }
    Some((b, c, d + 1, e))
}

/// Finds every update record of `output`, in document order.
pub fn extract_records(output: &str) -> (r: Vec<RawRecord>)
    ensures
        record_views(r@) == records_of(output@),
{
    let v = chars_of(output);
    let n = v.len();
    let mut r: Vec<RawRecord> = Vec::new();
    let mut i: usize = 0;
    assert(r@.map_values(|x: RawRecord| x@) + records_from(v@, 0) =~= records_from(v@, 0));
    while i < n
        invariant
            v@ == output@,
            n == v.len(),
            i <= n,
            r@.map_values(|x: RawRecord| x@) + records_from(v@, i as int) == records_from(v@, 0),
        decreases n - i,
    {
        match record_at_exec(&v, i) {
            Some(m) => {
                let name = String::from_str(output.substring_char(m.0, m.1));
                let fragment = String::from_str(output.substring_char(m.2, m.3));
                let rec = RawRecord { name, fragment };
                let ghost before = r@;
                r.push(rec);
                proof {
                    let tail = records_from(v@, m.3 + 1);
                    assert(r@.map_values(|x: RawRecord| x@) =~= before.map_values(
                        |x: RawRecord| x@,
                    ).push(rec@));
                    assert(before.map_values(|x: RawRecord| x@).push(rec@) + tail =~= before.map_values(
                        |x: RawRecord| x@,
                    ) + (seq![rec@] + tail));
                }
                i = m.3 + 1;
            },
            None => {
                i = i + 1;
            },
        }
    }
    assert(r@.map_values(|x: RawRecord| x@) + records_from(v@, n as int) =~= r@.map_values(
        |x: RawRecord| x@,
    ));
    r
}

} // verus!
