use pkgforecaster::classify::{assess, classify, parse_apt_output, parse_apt_simulation, split_versions};
use pkgforecaster::model::{summarize, PackageUpdate, Simulation, Summary};
use pkgforecaster::scan::extract_records;
use pkgforecaster::text::{has_substring, leading_part, trimmed};

fn strings(v: &[&str]) -> Vec<String> {
    v.iter().map(|s| s.to_string()).collect()
}

#[test]
fn curl_record_versions() {
    let sim = parse_apt_simulation("Inst curl (7.68.0-1ubuntu2 -> 7.81.0-1ubuntu1.15 [amd64])");
    assert_eq!(sim.updates.len(), 1);
    let u = &sim.updates[0];
    assert_eq!(u.name, "curl");
    assert_eq!(u.current, "7.68.0-1ubuntu2");
    assert_eq!(u.new, "7.81.0-1ubuntu1.15 [amd64]");
    // Both versions read "7" before their first dot: no major change.
    assert_eq!(u.risks, strings(&["recommended: test before deploy"]));
    assert_eq!(u.risk_score, Some(20));
}

#[test]
fn curl_record_with_new_major() {
    let sim = parse_apt_simulation("Inst curl (7.68.0-1ubuntu2 -> 8.5.0-2ubuntu10 [amd64])");
    let u = &sim.updates[0];
    assert_eq!(u.risks, strings(&["major version change detected"]));
    assert_eq!(u.risk_score, Some(70));
}

#[test]
fn fragment_without_arrow_is_unknown_current() {
    let sim = parse_apt_simulation("Inst foo (some-opaque-text)");
    assert_eq!(sim.updates.len(), 1);
    let u = &sim.updates[0];
    assert_eq!(u.name, "foo");
    assert_eq!(u.current, "unknown");
    assert_eq!(u.new, "some-opaque-text");
    assert_eq!(u.risk_score, Some(20));
    assert_eq!(u.risks, strings(&["recommended: test before deploy"]));
}

#[test]
fn text_without_records_is_empty() {
    for text in ["", "Reading package lists...\nDone\n", "Inst", "Inst foo", "Conf curl (7.81.0 Ubuntu:22.04 [amd64])"] {
        let sim = parse_apt_simulation(text);
        assert!(sim.updates.is_empty());
        assert_eq!(sim.summary, Summary { total: 0, high_risk: 0, medium_risk: 0 });
    }
}

#[test]
fn summary_counts_buckets() {
    let text = "Reading package lists...\n\
                Inst openssl (1.1.1f-1 -> 1.1.1f-2 [amd64])\n\
                Inst curl (7.68.0 -> 8.0.1)\n\
                Inst vim (8.1 -> 8.2)\n\
                Conf vim (8.2)\n\
                Inst libc6 (2.31-0 -> 2.35-0)\n";
    let sim = parse_apt_simulation(text);
    assert_eq!(sim.updates.len(), 4);
    let names: Vec<&str> = sim.updates.iter().map(|u| u.name.as_str()).collect();
    assert_eq!(names, vec!["openssl", "curl", "vim", "libc6"]);
    let scores: Vec<Option<u32>> = sim.updates.iter().map(|u| u.risk_score).collect();
    assert_eq!(scores, vec![Some(90), Some(70), Some(20), Some(90)]);
    assert_eq!(sim.summary, Summary { total: 4, high_risk: 2, medium_risk: 1 });
    assert!(sim.summary.high_risk + sim.summary.medium_risk <= sim.summary.total);
}

#[test]
fn openssl_is_critical() {
    let sim = parse_apt_simulation("Inst libssl-openssl3 (3.0.2 -> 3.0.2-1)");
    let u = &sim.updates[0];
    assert_eq!(u.risk_score, Some(90));
    assert_eq!(u.risks, strings(&["openssl is critical system package"]));
}

#[test]
fn several_critical_tokens_each_noted() {
    let sim = parse_apt_simulation("Inst glibc-libc6-systemd (1.0 -> 2.0)");
    let u = &sim.updates[0];
    assert_eq!(
        u.risks,
        strings(&[
            "systemd is critical system package",
            "glibc is critical system package",
            "libc6 is critical system package",
            "major version change detected",
        ])
    );
    assert_eq!(u.risk_score, Some(90));
}

#[test]
fn major_bump_from_one_to_two() {
    let (risks, score) = assess("pkg", "1.2.3", "2.0.0");
    assert_eq!(risks, strings(&["major version change detected"]));
    assert_eq!(score, 70);
    let (risks, score) = assess("systemd", "1.2.3", "2.0.0");
    assert_eq!(risks, strings(&["systemd is critical system package", "major version change detected"]));
    assert_eq!(score, 90);
}

#[test]
fn minor_bump_is_baseline() {
    let sim = parse_apt_simulation("Inst vim (1.2.3 -> 1.4.0)");
    let u = &sim.updates[0];
    assert_eq!(u.risk_score, Some(20));
    assert_eq!(u.risks, strings(&["recommended: test before deploy"]));
}

#[test]
fn unknown_current_is_no_major_change() {
    let (risks, score) = assess("pkg", "unknown", "2.0");
    assert_eq!(risks, strings(&["recommended: test before deploy"]));
    assert_eq!(score, 20);
}

#[test]
fn same_text_same_result() {
    let text = "Inst a (1 -> 2)\nInst openssl (1.0 -> 1.1)\nInst b (x)\n";
    let first = parse_apt_simulation(text);
    let second = parse_apt_simulation(text);
    assert_eq!(format!("{:?}", first), format!("{:?}", second));
    assert_eq!(format!("{:?}", parse_apt_output(text)), format!("{:?}", first));
}

#[test]
fn split_on_first_arrow_only() {
    let (current, new) = split_versions(" 1.0 -> 2.0 -> 3.0 ");
    assert_eq!(current, "1.0");
    assert_eq!(new, "2.0 -> 3.0");
    let (current, new) = split_versions(" opaque ");
    assert_eq!(current, "unknown");
    assert_eq!(new, " opaque ");
    let (current, new) = split_versions("->");
    assert_eq!(current, "");
    assert_eq!(new, "");
}

#[test]
fn classify_single_record() {
    let u = classify("ld-linux-x86-64", "2.31 -> 2.35");
    assert_eq!(u.current, "2.31");
    assert_eq!(u.new, "2.35");
    assert_eq!(u.risks, strings(&["ld-linux is critical system package"]));
    assert_eq!(u.risk_score, Some(90));
}

#[test]
fn grammar_edge_cases() {
    assert_eq!(parse_apt_simulation("Inst foo(1.0 -> 2.0)").updates.len(), 0);
    assert_eq!(parse_apt_simulation("Inst foo ()").updates.len(), 0);
    assert_eq!(parse_apt_simulation("Inst foo (1.0 -> 2.0").updates.len(), 0);
    assert_eq!(parse_apt_simulation("Instfoo (1.0)").updates.len(), 0);
    let sim = parse_apt_simulation("xxInst\tfoo:amd64 \t(1.0\n-> 1.1) trailing");
    assert_eq!(sim.updates.len(), 1);
    assert_eq!(sim.updates[0].name, "foo:amd64");
    assert_eq!(sim.updates[0].current, "1.0");
    assert_eq!(sim.updates[0].new, "1.1");
    let sim = parse_apt_simulation("Inst a (1 -> 2)Inst b (3 -> 3.1)");
    let names: Vec<&str> = sim.updates.iter().map(|u| u.name.as_str()).collect();
    assert_eq!(names, vec!["a", "b"]);
}

#[test]
fn duplicate_names_are_kept() {
    let sim = parse_apt_simulation("Inst a (1 -> 2)\nInst a (1 -> 2)\n");
    assert_eq!(sim.summary.total, 2);
    assert_eq!(sim.updates[0].name, "a");
    assert_eq!(sim.updates[1].name, "a");
}

#[test]
fn scanner_agrees_with_pattern() {
    let re = regex::Regex::new(r"Inst\s+([^\s]+)\s+\(([^)]+)\)").unwrap();
    let inputs = [
        "Inst curl (7.68.0-1ubuntu2 -> 7.81.0-1ubuntu1.15 [amd64])",
        "Inst a (1 -> 2)Inst b (3)",
        "InstInst x (y)",
        "Inst  (a) (b)",
        "Inst\u{3000}wide\u{a0}(1 -> 2)\nInst\u{85}n (q(r))",
        "Inst a (\n) Inst b ()) Inst c (d",
        "noise Inst p.q+r~s (1:2.0 -> 1:2.1 [all]) Inst t ( spaced )",
        "",
    ];
    for text in inputs {
        let expected: Vec<(String, String)> =
            re.captures_iter(text).map(|c| (c[1].to_string(), c[2].to_string())).collect();
        let found: Vec<(String, String)> =
            extract_records(text).into_iter().map(|r| (r.name, r.fragment)).collect();
        assert_eq!(found, expected, "on {:?}", text);
    }
}

#[test]
fn empty_simulation() {
    let sim = Simulation::new();
    assert!(sim.updates.is_empty());
    assert_eq!(sim.summary, Summary { total: 0, high_risk: 0, medium_risk: 0 });
}

#[test]
fn unscored_update_counts_as_low() {
    let updates = vec![
        PackageUpdate {
            name: "a".to_string(),
            current: "1".to_string(),
            new: "2".to_string(),
            risks: vec![],
            risk_score: None,
        },
        PackageUpdate {
            name: "b".to_string(),
            current: "1".to_string(),
            new: "2".to_string(),
            risks: vec![],
            risk_score: Some(40),
        },
        PackageUpdate {
            name: "c".to_string(),
            current: "1".to_string(),
            new: "2".to_string(),
            risks: vec![],
            risk_score: Some(75),
        },
    ];
    assert_eq!(summarize(&updates), Summary { total: 3, high_risk: 1, medium_risk: 1 });
}

#[test]
fn text_helpers() {
    assert!(has_substring("libssl-openssl", "openssl"));
    assert!(!has_substring("opens", "openssl"));
    assert!(has_substring("x", ""));
    assert_eq!(trimmed(" \t a b \n"), "a b");
    assert_eq!(trimmed("   "), "");
    assert_eq!(leading_part("7.68.0"), "7");
    assert_eq!(leading_part("abc"), "abc");
}
