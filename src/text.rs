use vstd::prelude::*;

verus! {

/// The Unicode `White_Space` property, which is what `\s` and `str::trim` call blank.
pub open spec fn is_ws(c: char) -> bool {
    let n = c as u32;
    (0x9 <= n <= 0xd) || n == 0x20 || n == 0x85 || n == 0xa0 || n == 0x1680 || (0x2000 <= n
        <= 0x200a) || n == 0x2028 || n == 0x2029 || n == 0x202f || n == 0x205f || n == 0x3000
}

pub fn is_blank(c: char) -> (r: bool)
    ensures
        r == is_ws(c),
{
    let n = c as u32;
    (0x9 <= n && n <= 0xd) || n == 0x20 || n == 0x85 || n == 0xa0 || n == 0x1680 || (0x2000 <= n
        && n <= 0x200a) || n == 0x2028 || n == 0x2029 || n == 0x202f || n == 0x205f || n == 0x3000
}

/// The characters of `s`, in order.
pub fn chars_of(s: &str) -> (r: Vec<char>)
    ensures
        r@ == s@,
{
    let mut r: Vec<char> = Vec::new();
    for c in it: s.chars()
        invariant
            r@ == it.seq().subrange(0, it.index() as int),
            it.seq() == s@,
    {
        r.push(c);
    }
    r
}

/// Kinds of character run: what the record grammar and the version rules step over.
#[derive(Clone, Copy, Debug, PartialEq, Eq, Structural)]
pub enum Run {
    /// Blank characters.
    Blank,
    /// Non-blank characters.
    Token,
    /// Anything but a closing parenthesis.
    Group,
    /// Anything but a dot.
    Segment,
}

pub open spec fn in_run(k: Run, c: char) -> bool {
    match k {
        Run::Blank => is_ws(c),
        Run::Token => !is_ws(c),
        Run::Group => c != ')',
        Run::Segment => c != '.',
    }
}

/// Where the run of kind `k` that starts at `i` ends: the first index at or after `i`
/// that holds no character of the run (or the length of `s`).
pub open spec fn span(s: Seq<char>, i: int, k: Run) -> int
    decreases s.len() - i,
{
    if 0 <= i < s.len() && in_run(k, s[i]) {
        span(s, i + 1, k)
    } else {
        i
    }
}

pub fn span_end(v: &Vec<char>, i: usize, k: Run) -> (r: usize)
    requires
        i <= v.len(),
    ensures
        i <= r <= v.len(),
        r as int == span(v@, i as int, k),
{
    let mut j: usize = i;
    while j < v.len()
        invariant
            i <= j <= v.len(),
            span(v@, j as int, k) == span(v@, i as int, k),
        decreases v.len() - j,
    {
        let c = v[j];
        let more = match k {
            Run::Blank => is_blank(c),
            Run::Token => !is_blank(c),
            Run::Group => c != ')',
            Run::Segment => c != '.',
        };
        if !more {
            return j;
        }
        j = j + 1;
    }
    j
}

/// Whether `n` occurs in `h` at index `k`.
pub open spec fn occurs_at(h: Seq<char>, n: Seq<char>, k: int) -> bool {
    0 <= k && k + n.len() <= h.len() && h.subrange(k, k + n.len()) == n
}

/// Whether `n` is a substring of `h`.
pub open spec fn contains(h: Seq<char>, n: Seq<char>) -> bool {
    exists|k: int| occurs_at(h, n, k)
}

fn occurs_at_exec(h: &Vec<char>, n: &Vec<char>, k: usize) -> (r: bool)
    requires
        k + n.len() <= h.len(),
    ensures
        r == occurs_at(h@, n@, k as int),
{
    let mut j: usize = 0;
    while j < n.len()
        invariant
            k + n.len() <= h.len(),
            j <= n.len(),
            forall|t: int| 0 <= t < j ==> h@[k + t] == n@[t],
        decreases n.len() - j,
    {
        if h[k + j] != n[j] {
            assert(h@.subrange(k as int, k + n.len())[j as int] != n@[j as int]);
            return false;
        }
        j = j + 1;
    }
    assert(h@.subrange(k as int, k + n.len()) =~= n@);
    true
}

/// Whether `needle` is a substring of `hay`.
pub fn has_substring(hay: &str, needle: &str) -> (r: bool)
    ensures
        r == contains(hay@, needle@),
{
    let h = chars_of(hay);
    let n = chars_of(needle);
    if n.len() > h.len() {
        return false;
    }
    let last = h.len() - n.len();
    let mut k: usize = 0;
    loop
        invariant
            h@ == hay@,
            n@ == needle@,
            last == h.len() - n.len(),
            k <= last,
            forall|t: int| 0 <= t < k ==> !occurs_at(h@, n@, t),
        decreases last - k,
    {
        if occurs_at_exec(&h, &n, k) {
            return true;
        }
        if k == last {
            return false;
        }
        k = k + 1;
    }
}

/// Where the trailing blanks of `s[..j]` begin.
pub open spec fn trim_end(s: Seq<char>, j: int) -> int
    decreases j,
{
    if 0 < j <= s.len() && is_ws(s[j - 1]) {
        trim_end(s, j - 1)
    } else {
        j
    }
}

/// `s` without its leading and trailing blanks.
pub open spec fn trim(s: Seq<char>) -> Seq<char> {
    let a = span(s, 0, Run::Blank);
    let b = trim_end(s, s.len() as int);
    if a < b {
        s.subrange(a, b)
    } else {
        seq![]
    }
}

/// `s` without its leading and trailing blanks.
pub fn trimmed(s: &str) -> (r: String)
    ensures
        r@ == trim(s@),
{
    let v = chars_of(s);
    let a = span_end(&v, 0, Run::Blank);
    let mut b: usize = v.len();
    while b > 0 && is_blank(v[b - 1])
        invariant
            b <= v.len(),
            trim_end(v@, b as int) == trim_end(v@, v.len() as int),
        decreases b,
    {
        b = b - 1;
    }
    if a < b {
        String::from_str(s.substring_char(a, b))
    } else {
        String::new()
    }
}

/// The index of the first `->` in `s` at or after `i`.
pub open spec fn arrow_from(s: Seq<char>, i: int) -> Option<int>
    decreases s.len() - i,
{
    if 0 <= i && i + 1 < s.len() {
        if s[i] == '-' && s[i + 1] == '>' {
            Some(i)
        } else {
            arrow_from(s, i + 1)
        }
    } else {
        None
    }
}

/// The index of the first `->` in `v`.
pub fn find_arrow(v: &Vec<char>) -> (r: Option<usize>)
    ensures
        match r {
            Some(k) => arrow_from(v@, 0) == Some(k as int) && k + 2 <= v.len(),
            None => arrow_from(v@, 0) is None,
        },
{
    let mut i: usize = 0;
    while v.len() > 1 && i < v.len() - 1
        invariant
            arrow_from(v@, i as int) == arrow_from(v@, 0),
        decreases v.len() - i,
    {
        if v[i] == '-' && v[i + 1] == '>' {
            return Some(i);
        }
        i = i + 1;
    }
    None
}

/// The part of `s` before its first dot (all of `s` when it has none).
pub open spec fn leading(s: Seq<char>) -> Seq<char> {
    s.subrange(0, span(s, 0, Run::Segment))
}

/// The part of `s` before its first dot (all of `s` when it has none).
pub fn leading_part(s: &str) -> (r: String)
    ensures
        r@ == leading(s@),
{
    let v = chars_of(s);
    let e = span_end(&v, 0, Run::Segment);
    String::from_str(s.substring_char(0, e))
}

} // verus!
