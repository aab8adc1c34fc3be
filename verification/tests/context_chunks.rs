use ratatoskr::context::{extract_lines, extract_section, resolve_context};
use ratatoskr::task::ContextRef;

const DOC: &str = "# Title\nintro\n## Setup\nstep one\nstep two\n## Usage\nrun it";

fn reference(lines: Option<(usize, usize)>, section: Option<&str>) -> ContextRef {
    ContextRef {
        path: "docs/guide.md".to_string(),
        lines,
        section: section.map(|s| s.to_string()),
    }
}

#[test]
fn line_range_is_inclusive_and_counts_from_one() {
    assert_eq!(extract_lines(DOC, 2, 4), "intro\n## Setup\nstep one\n");
    assert_eq!(extract_lines(DOC, 1, 1), "# Title\n");
    assert_eq!(extract_lines(DOC, 7, 7), "run it\n");
    assert_eq!(extract_lines(DOC, 0, 1), "# Title\n");
}

#[test]
fn line_range_outside_the_document_is_empty() {
    assert_eq!(extract_lines(DOC, 8, 20), "");
    assert_eq!(extract_lines(DOC, 4, 2), "");
    assert_eq!(extract_lines("", 1, 10), "");
    assert_eq!(extract_lines(DOC, 6, usize::MAX), "## Usage\nrun it\n");
}

#[test]
fn line_range_drops_carriage_returns() {
    assert_eq!(extract_lines("a\r\nb\r\nc", 1, 2), "a\nb\n");
}

#[test]
fn section_runs_from_first_marker_line_to_the_end() {
    assert_eq!(extract_section(DOC, "## Setup"), "## Setup\nstep one\nstep two\n## Usage\nrun it\n");
    assert_eq!(extract_section(DOC, "Usage"), "## Usage\nrun it\n");
    assert_eq!(extract_section(DOC, "step"), "step one\nstep two\n## Usage\nrun it\n");
}

#[test]
fn section_without_marker_line_is_empty() {
    assert_eq!(extract_section(DOC, "## Missing"), "");
    assert_eq!(extract_section("", "x"), "");
}

#[test]
fn empty_marker_takes_the_whole_document() {
    assert_eq!(extract_section("a\nb", ""), "a\nb\n");
}

#[test]
fn reference_with_line_range_gives_one_named_chunk() {
    let chunks = resolve_context(&reference(Some((3, 5)), None), "guide.md", DOC);
    assert_eq!(chunks.len(), 1);
    assert_eq!(chunks[0].content, "## Setup\nstep one\nstep two\n");
    assert_eq!(chunks[0].entry.source, "docs/guide.md");
    assert_eq!(chunks[0].entry.chunk, "guide.md__lines_3_5.txt");
    assert_eq!(chunks[0].entry.rationale, "explicit line range");
}

#[test]
fn reference_with_section_gives_one_named_chunk() {
    let chunks = resolve_context(&reference(None, Some("## Usage notes")), "guide.md", DOC);
    assert_eq!(chunks.len(), 1);
    assert_eq!(chunks[0].content, "");
    assert_eq!(chunks[0].entry.chunk, "guide.md__section_##_Usage_notes.txt");
    assert_eq!(chunks[0].entry.rationale, "explicit section: ## Usage notes");
    let chunks = resolve_context(&reference(None, Some("## Usage")), "guide.md", DOC);
    assert_eq!(chunks[0].content, "## Usage\nrun it\n");
    assert_eq!(chunks[0].entry.chunk, "guide.md__section_##_Usage.txt");
}

#[test]
fn reference_without_selector_gives_no_chunk() {
    assert!(resolve_context(&reference(None, None), "guide.md", DOC).is_empty());
}

#[test]
fn reference_with_both_selectors_gives_lines_then_section() {
    let both = reference(Some((1, 1)), Some("Usage"));
    assert!(!both.is_well_formed());
    let chunks = resolve_context(&both, "guide.md", DOC);
    assert_eq!(chunks.len(), 2);
    assert_eq!(chunks[0].entry.chunk, "guide.md__lines_1_1.txt");
    assert_eq!(chunks[1].entry.chunk, "guide.md__section_Usage.txt");
    assert!(reference(Some((1, 1)), None).is_well_formed());
    assert!(reference(None, Some("x")).is_well_formed());
    assert!(reference(None, None).is_well_formed());
}

#[test]
fn context_reference_clone_keeps_every_field() {
    let r = reference(Some((2, 9)), Some("s"));
    let c = r.clone();
    assert_eq!(c.path, "docs/guide.md");
    assert_eq!(c.lines, Some((2, 9)));
    assert_eq!(c.section.as_deref(), Some("s"));
}
