use ratatoskr::citation::{collect_citations, extract_fur_citations, CITATION_PATTERN};
use ratatoskr::failure::Failure;
use ratatoskr::fur_atom::FurAtom;
use ratatoskr::validate::validate_citations;

fn atom(id: &str) -> FurAtom {
    FurAtom::seal("convo", id.to_string(), 0, "text", "content".to_string())
}

fn strings(items: &[&str]) -> Vec<String> {
    items.iter().map(|s| s.to_string()).collect()
}

#[test]
fn extracts_single_marker() {
    let found = extract_fur_citations("see [FUR:ab-12] for details");
    assert_eq!(found, strings(&["ab-12"]));
}

#[test]
fn duplicates_are_reported_once_in_first_occurrence_order() {
    let found = extract_fur_citations("[FUR:b1] [FUR:a0] [FUR:b1] [FUR:a0]");
    assert_eq!(found, strings(&["b1", "a0"]));
}

#[test]
fn response_without_marker_has_no_citations() {
    assert!(extract_fur_citations("no markers here").is_empty());
    assert!(extract_fur_citations("").is_empty());
}

#[test]
fn marker_ids_are_lowercase_hex_and_dashes_only() {
    assert!(extract_fur_citations("[FUR:ABC]").is_empty());
    assert!(extract_fur_citations("[FUR:xyz]").is_empty());
    assert!(extract_fur_citations("[FUR:]").is_empty());
    assert!(extract_fur_citations("[fur:ab]").is_empty());
    assert!(extract_fur_citations("[FUR:ab ]").is_empty());
    assert_eq!(extract_fur_citations("[FUR:0123456789abcdef-]"), strings(&["0123456789abcdef-"]));
}

#[test]
fn markers_are_found_inside_other_text() {
    let found = extract_fur_citations("x[[FUR:a1]]y[FUR:b2][FUR:zz][FUR:c3");
    assert_eq!(found, strings(&["a1", "b2"]));
}

#[test]
fn citation_pattern_is_the_wire_format() {
    assert_eq!(CITATION_PATTERN, "\\[FUR:([a-f0-9\\-]+)\\]");
}

#[test]
fn collect_drops_absent_captures_and_repeats() {
    let found = Some(vec![
        Some("a".to_string()),
        None,
        Some("b".to_string()),
        Some("a".to_string()),
        None,
        Some("c".to_string()),
        Some("b".to_string()),
    ]);
    assert_eq!(collect_citations(found), strings(&["a", "b", "c"]));
}

#[test]
fn collect_of_failed_search_is_empty() {
    assert!(collect_citations(None).is_empty());
    assert!(collect_citations(Some(Vec::new())).is_empty());
}

#[test]
fn validate_rejects_empty_citations() {
    let atoms = vec![atom("a1")];
    let r = validate_citations(&[], &atoms);
    assert!(matches!(r, Err(Failure::NoCitations)));
    let none: Vec<FurAtom> = Vec::new();
    assert!(matches!(validate_citations(&[], &none), Err(Failure::NoCitations)));
}

#[test]
fn validate_accepts_known_citations() {
    let atoms = vec![atom("a1"), atom("b2"), atom("c3")];
    assert!(validate_citations(&strings(&["b2"]), &atoms).is_ok());
    assert!(validate_citations(&strings(&["c3", "a1", "b2", "a1"]), &atoms).is_ok());
}

#[test]
fn validate_reports_first_unknown_citation() {
    let atoms = vec![atom("a1"), atom("b2")];
    let r = validate_citations(&strings(&["a1", "zz", "b2", "yy"]), &atoms);
    match r {
        Err(Failure::UnknownCitation(id)) => assert_eq!(id, "zz"),
        other => panic!("unexpected result: {:?}", other),
    }
}

#[test]
fn validate_against_no_atoms_rejects_any_citation() {
    let none: Vec<FurAtom> = Vec::new();
    match validate_citations(&strings(&["a1"]), &none) {
        Err(Failure::UnknownCitation(id)) => assert_eq!(id, "a1"),
        other => panic!("unexpected result: {:?}", other),
    }
}

#[test]
fn validation_of_extracted_citations_succeeds_iff_all_are_atoms() {
    let atoms = vec![atom("a1"), atom("b2")];
    let grounded = extract_fur_citations("uses [FUR:a1] and [FUR:b2] and [FUR:a1]");
    assert!(validate_citations(&grounded, &atoms).is_ok());
    let stray = extract_fur_citations("uses [FUR:a1] and [FUR:c3]");
    assert!(matches!(validate_citations(&stray, &atoms), Err(Failure::UnknownCitation(_))));
    let silent = extract_fur_citations("uses nothing");
    assert!(matches!(validate_citations(&silent, &atoms), Err(Failure::NoCitations)));
}

#[test]
fn violation_messages() {
    assert_eq!(Failure::NoCitations.message(), "model produced no material citations");
    assert_eq!(
        Failure::UnknownCitation("ab-1".to_string()).message(),
        "invalid citation: FUR:ab-1 (not in material ledger)"
    );
    assert!(Failure::NoCitations.is_grounding_violation());
    assert!(Failure::UnknownCitation("x".to_string()).is_grounding_violation());
    assert!(!Failure::UnsupportedMemorySystem.is_grounding_violation());
    assert!(!Failure::Engine("x".to_string()).is_grounding_violation());
}
