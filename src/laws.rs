use vstd::prelude::*;

use crate::classify::{
    classified, critical_note, critical_notes, critical_tokens, fallback_note, is_critical,
    major_change, major_note, risk_notes_of, risk_score_of, unknown, updates_of, versions_of,
};
use crate::model::{high_count, medium_count, score_value, SimulationView};
use crate::scan::{record_at, records_from};
use crate::text::{contains, leading, span, Run};

verus! {

proof fn lemma_no_records_from(s: Seq<char>, i: int)
    requires
        forall|j: int| 0 <= j < s.len() ==> #[trigger] record_at(s, j) is None,
    ensures
        records_from(s, i).len() == 0,
    decreases s.len() - i,
{
    if 0 <= i < s.len() {
        lemma_no_records_from(s, i + 1);
    }
}

/// Text in which no update record starts yields no updates, and so zero counts.
pub proof fn lemma_no_records_no_updates(text: Seq<char>)
    requires
        forall|j: int| 0 <= j < text.len() ==> #[trigger] record_at(text, j) is None,
    ensures
        updates_of(text).len() == 0,
        high_count(updates_of(text)) == 0,
        medium_count(updates_of(text)) == 0,
{
    reveal(Seq::filter);
    lemma_no_records_from(text, 0);
}

/// A package whose name contains `openssl` scores at least 0.9, and its notes name
/// `openssl` as critical.
pub proof fn lemma_openssl_is_critical(name: Seq<char>, fragment: Seq<char>)
    requires
        contains(name, "openssl"@),
    ensures
        score_value(classified(name, fragment)) >= 90,
        classified(name, fragment).risks.contains(critical_note("openssl"@)),
{
    let toks = critical_tokens();
    assert(toks[0] == "openssl"@);
    assert(is_critical(name));
    let p = |t: Seq<char>| contains(name, t);
    toks.lemma_filter_contains(p, 0);
    let f = toks.filter(p);
    let k = choose|k: int| 0 <= k < f.len() && f[k] == "openssl"@;
    let notes = critical_notes(name, toks);
    assert(notes[k] == critical_note("openssl"@));
    let (current, new) = versions_of(fragment);
    let risks = risk_notes_of(name, current, new);
    assert(risks[k] == notes[k]);
}

/// A change from 1.2.3 to 2.0.0 is a major one: it is noted, and scores at least 0.7.
pub proof fn lemma_major_bump_noted(name: Seq<char>)
    ensures
        risk_notes_of(name, "1.2.3"@, "2.0.0"@).contains(major_note()),
        risk_score_of(name, "1.2.3"@, "2.0.0"@) >= 70,
{
    reveal_strlit("1.2.3");
    reveal_strlit("2.0.0");
    reveal_strlit("unknown");
    let a = "1.2.3"@;
    let b = "2.0.0"@;
    assert(a != unknown()) by {
        assert(a.len() != unknown().len());
    }
    assert(b != unknown()) by {
        assert(b.len() != unknown().len());
    }
    assert(span(a, 1, Run::Segment) == 1);
    assert(span(a, 0, Run::Segment) == 1);
    assert(span(b, 1, Run::Segment) == 1);
    assert(span(b, 0, Run::Segment) == 1);
    assert(leading(a)[0] != leading(b)[0]);
    assert(major_change(a, b));
    let notes = risk_notes_of(name, a, b);
    let c = critical_notes(name, critical_tokens());
    assert(notes[c.len() as int] == major_note());
}

/// A package that is not critical and changes no major version scores 0.2, and is
/// noted for testing before deployment.
pub proof fn lemma_baseline(name: Seq<char>, current: Seq<char>, new: Seq<char>)
    requires
        !is_critical(name),
        !major_change(current, new),
    ensures
        risk_score_of(name, current, new) == 20,
        risk_notes_of(name, current, new).contains(fallback_note()),
{
    let notes = risk_notes_of(name, current, new);
    assert(notes[notes.len() - 1] == fallback_note());
}

/// Reading the same text twice gives the same simulation: the result depends on the
/// text alone.
pub proof fn lemma_same_text_same_simulation(text: Seq<char>, a: SimulationView, b: SimulationView)
    requires
        a.updates == updates_of(text),
        a.summary.total == a.updates.len(),
        a.summary.high_risk == high_count(a.updates),
        a.summary.medium_risk == medium_count(a.updates),
        b.updates == updates_of(text),
        b.summary.total == b.updates.len(),
        b.summary.high_risk == high_count(b.updates),
        b.summary.medium_risk == medium_count(b.updates),
    ensures
        a == b,
{
}

} // verus!
