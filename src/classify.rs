use vstd::prelude::*;

use crate::model::{
    high_count, medium_count, summarize, texts, update_views, PackageUpdate, PackageUpdateView,
    Simulation,
};
use crate::scan::{extract_records, record_views, records_of};
use crate::text::{
    arrow_from, chars_of, contains, find_arrow, has_substring, leading, leading_part, trim, trimmed,
};

verus! {

/// What stands for a version that the text does not give.
pub open spec fn unknown() -> Seq<char> {
    "unknown"@
}

/// The versions before and after the upgrade, read from a transition fragment: the
/// trimmed text on either side of its first `->`; without one, `unknown` and the
/// fragment as it is.
pub open spec fn versions_of(fragment: Seq<char>) -> (Seq<char>, Seq<char>) {
    match arrow_from(fragment, 0) {
        Some(k) => (trim(fragment.subrange(0, k)), trim(fragment.subrange(k + 2, fragment.len() as int))),
        None => (unknown(), fragment),
    }
}

/// Splits a transition fragment into the current and the new version.
pub fn split_versions(fragment: &str) -> (r: (String, String))
    ensures
        (r.0@, r.1@) == versions_of(fragment@),
{
    let v = chars_of(fragment);
    match find_arrow(&v) {
        Some(k) => {
            let before = trimmed(fragment.substring_char(0, k));
            let after = trimmed(fragment.substring_char(k + 2, v.len()));
            (before, after)
        },
        None => (String::from_str("unknown"), String::from_str(fragment)),
    }
}

/// Names that mark a package as part of the system's foundation.
pub open spec fn critical_tokens() -> Seq<Seq<char>> {
    seq!["openssl"@, "systemd"@, "glibc"@, "libc6"@, "ld-linux"@]
}

fn critical_token(i: usize) -> (r: &'static str)
    requires
        i < critical_tokens().len(),
    ensures
        r@ == critical_tokens()[i as int],
{
    if i == 0 {
        "openssl"
    } else if i == 1 {
        "systemd"
    } else if i == 2 {
        "glibc"
    } else if i == 3 {
        "libc6"
    } else {
        "ld-linux"
    }
}

/// Whether `name` contains one of the critical tokens.
pub open spec fn is_critical(name: Seq<char>) -> bool {
    exists|i: int| 0 <= i < critical_tokens().len() && contains(name, #[trigger] critical_tokens()[i])
}

pub open spec fn critical_note(token: Seq<char>) -> Seq<char> {
    token + " is critical system package"@
}

/// One note for each token of `tokens` that `name` contains, in the tokens' order.
pub open spec fn critical_notes(name: Seq<char>, tokens: Seq<Seq<char>>) -> Seq<Seq<char>> {
    tokens.filter(|t: Seq<char>| contains(name, t)).map_values(|t: Seq<char>| critical_note(t))
}

pub open spec fn major_note() -> Seq<char> {
    "major version change detected"@
}

pub open spec fn fallback_note() -> Seq<char> {
    "recommended: test before deploy"@
}

/// Both versions are known and differ before their first dot.
pub open spec fn major_change(current: Seq<char>, new: Seq<char>) -> bool {
    current != unknown() && new != unknown() && leading(current) != leading(new)
}

/// The risk score in hundredths: 90 for a critical package, else 70 for a major
/// version change, else 20.
pub open spec fn risk_score_of(name: Seq<char>, current: Seq<char>, new: Seq<char>) -> u32 {
    if is_critical(name) {
        90
    } else if major_change(current, new) {
        70
    } else {
        20
    }
}

/// The notes behind the score: one per critical token that the name contains, then
/// the major-change note, then the fallback note when neither of those fired.
pub open spec fn risk_notes_of(name: Seq<char>, current: Seq<char>, new: Seq<char>) -> Seq<Seq<char>> {
    critical_notes(name, critical_tokens()) + (if major_change(current, new) {
        seq![major_note()]
    } else {
        seq![]
    }) + (if !is_critical(name) && !major_change(current, new) {
        seq![fallback_note()]
    } else {
        seq![]
    })
}

/// The update that a record with this name and fragment stands for.
pub open spec fn classified(name: Seq<char>, fragment: Seq<char>) -> PackageUpdateView {
    let (current, new) = versions_of(fragment);
    PackageUpdateView {
        name,
        current,
        new,
        risks: risk_notes_of(name, current, new),
        risk_score: Some(risk_score_of(name, current, new)),
    }
}

/// Scores a change of `name` from `current` to `new`: the notes, and the score in
/// hundredths.
pub fn assess(name: &str, current: &str, new: &str) -> (r: (Vec<String>, u32))
    ensures
        texts(r.0@) == risk_notes_of(name@, current@, new@),
        r.1 == risk_score_of(name@, current@, new@),
{
    let ghost toks = critical_tokens();
    let mut risks: Vec<String> = Vec::new();
    let mut score: u32 = 10;
    let mut i: usize = 0;
    assert(toks.subrange(0, 0).filter(|t: Seq<char>| contains(name@, t)) =~= seq![]) by {
        reveal(Seq::filter);
    }
    assert(texts(risks@) =~= critical_notes(name@, toks.subrange(0, 0)));
    while i < 5
        invariant
            toks == critical_tokens(),
            i <= 5,
            texts(risks@) == critical_notes(name@, toks.subrange(0, i as int)),
            score == (if exists|j: int| 0 <= j < i && contains(name@, #[trigger] toks[j]) {
                90u32
            } else {
                10u32
            }),
        decreases 5 - i,
    {
        let t = critical_token(i);
        let ghost before = risks@;
        let ghost pre = toks.subrange(0, i as int);
        let ghost next = toks.subrange(0, i + 1);
        proof {
            reveal(Seq::filter);
            assert(next.drop_last() =~= pre);
            assert(next.last() == t@);
        }
        if has_substring(name, t) {
            let mut note = String::from_str(t);
            note.append(" is critical system package");
            risks.push(note);
            if score < 90 {
                score = 90;
            }
            proof {
                assert(texts(risks@) =~= texts(before).push(critical_note(t@)));
                assert(next.filter(|x: Seq<char>| contains(name@, x)) == pre.filter(
                    |x: Seq<char>| contains(name@, x),
                ).push(t@));
                assert(pre.filter(|x: Seq<char>| contains(name@, x)).push(t@).map_values(
                    |x: Seq<char>| critical_note(x),
                ) =~= pre.filter(|x: Seq<char>| contains(name@, x)).map_values(
                    |x: Seq<char>| critical_note(x),
                ).push(critical_note(t@)));
                assert(contains(name@, toks[i as int]));
            }
        } else {
            proof {
                assert(next.filter(|x: Seq<char>| contains(name@, x)) == pre.filter(
                    |x: Seq<char>| contains(name@, x),
                ));
                assert forall|j: int| 0 <= j < i + 1 && contains(name@, #[trigger] toks[j]) implies j
                    < i by {}
            }
        }
        i = i + 1;
    }
    proof {
        assert(toks.subrange(0, 5) =~= toks);
    }
    let unknown_text = String::from_str("unknown");
    let cur = String::from_str(current);
    let nw = String::from_str(new);
    let major = !(cur == unknown_text) && !(nw == unknown_text) && !(leading_part(current)
        == leading_part(new));
    if major {
        risks.push(String::from_str("major version change detected"));
        if score < 70 {
            score = 70;
        }
    }
    if score < 50 {
        risks.push(String::from_str("recommended: test before deploy"));
        if score < 20 {
            score = 20;
        }
    }
    proof {
        assert(texts(risks@) =~= risk_notes_of(name@, current@, new@));
    }
    (risks, score)
}

/// Classifies one record: its versions, its notes and its score.
pub fn classify(name: &str, fragment: &str) -> (r: PackageUpdate)
    ensures
        r@ == classified(name@, fragment@),
{
    let (current, new) = split_versions(fragment);
    let (risks, score) = assess(name, current.as_str(), new.as_str());
    PackageUpdate {
        name: String::from_str(name),
        current,
        new,
        risks,
        risk_score: Some(score),
    }
}

/// The updates that `text` describes, one per record, in document order.
pub open spec fn updates_of(text: Seq<char>) -> Seq<PackageUpdateView> {
    records_of(text).map_values(|p: (Seq<char>, Seq<char>)| classified(p.0, p.1))
}

/// Reads a simulated upgrade's output: every update record in it, classified, and
/// their counts.
pub fn parse_apt_simulation(output: &str) -> (r: Simulation)
    ensures
        r@.updates == updates_of(output@),
        r.summary.total == r@.updates.len(),
        r.summary.high_risk == high_count(r@.updates),
        r.summary.medium_risk == medium_count(r@.updates),
        r.summary.high_risk + r.summary.medium_risk <= r.summary.total,
{
    let records = extract_records(output);
    let ghost raw = record_views(records@);
    let mut updates: Vec<PackageUpdate> = Vec::new();
    let n = records.len();
    for i in 0..n
        invariant
            n == records.len(),
            raw == record_views(records@),
            updates.len() == i,
            forall|j: int| 0 <= j < i ==> #[trigger] updates@[j]@ == classified(raw[j].0, raw[j].1),
    {
        let u = classify(records[i].name.as_str(), records[i].fragment.as_str());
        updates.push(u);
    }
    assert(update_views(updates@) =~= updates_of(output@));
    let summary = summarize(&updates);
    Simulation { updates, summary }
}

/// Reads a simulated upgrade's output into a simulation.
pub fn parse_apt_output(output: &str) -> (r: Simulation)
    ensures
        r@.updates == updates_of(output@),
        r.summary.total == r@.updates.len(),
        r.summary.high_risk == high_count(r@.updates),
        r.summary.medium_risk == medium_count(r@.updates),
        r.summary.high_risk + r.summary.medium_risk <= r.summary.total,
{
    parse_apt_simulation(output)
}

} // verus!
