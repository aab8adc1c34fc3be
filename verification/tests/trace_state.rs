use ratatoskr::failure::Failure;
use std::time::{Duration, SystemTime};

use ratatoskr::trace::{
    generate_trace_id, initialize_trace_layout, now_unix, text_write, trace_id_at, unix_seconds,
    update_trace_status, validate_transition, TraceMetadata, TraceStatus, Write,
    RATATOSKR_VERSION,
};

fn all_statuses() -> [TraceStatus; 3] {
    [TraceStatus::Initialized, TraceStatus::Executed, TraceStatus::Failed]
}

fn metadata(status: TraceStatus) -> TraceMetadata {
    TraceMetadata {
        trace_id: "1700000000".to_string(),
        timestamp_unix: 1700000000,
        ratatoskr_version: RATATOSKR_VERSION.to_string(),
        status,
    }
}

#[test]
fn initialized_may_become_executed_or_failed() {
    assert!(validate_transition(&TraceStatus::Initialized, &TraceStatus::Executed).is_ok());
    assert!(validate_transition(&TraceStatus::Initialized, &TraceStatus::Failed).is_ok());
}

#[test]
fn every_other_transition_is_illegal() {
    let mut illegal = 0;
    for from in all_statuses() {
        for to in all_statuses() {
            let legal = from == TraceStatus::Initialized && to != TraceStatus::Initialized;
            match validate_transition(&from, &to) {
                Ok(()) => assert!(legal),
                Err(Failure::IllegalTransition { from: f, to: t }) => {
                    assert!(!legal);
                    assert_eq!(f, from);
                    assert_eq!(t, to);
                    illegal += 1;
                }
                Err(other) => panic!("unexpected failure: {:?}", other),
            }
        }
    }
    assert_eq!(illegal, 7);
}

#[test]
fn illegal_transition_message_names_both_states() {
    let e = validate_transition(&TraceStatus::Executed, &TraceStatus::Failed).unwrap_err();
    assert_eq!(e.message(), "illegal state transition Executed → Failed");
    let e = validate_transition(&TraceStatus::Initialized, &TraceStatus::Initialized).unwrap_err();
    assert_eq!(e.message(), "illegal state transition Initialized → Initialized");
}

#[test]
fn status_names() {
    assert_eq!(TraceStatus::Initialized.label(), "Initialized");
    assert_eq!(TraceStatus::Executed.label(), "Executed");
    assert_eq!(TraceStatus::Failed.label(), "Failed");
}

#[test]
fn update_status_applies_legal_transition() {
    let mut meta = metadata(TraceStatus::Initialized);
    assert!(update_trace_status(&mut meta, TraceStatus::Executed).is_ok());
    assert_eq!(meta.status, TraceStatus::Executed);
    assert_eq!(meta.trace_id, "1700000000");
    assert_eq!(meta.timestamp_unix, 1700000000);
    assert_eq!(meta.ratatoskr_version, "0.2.0-dev");
}

#[test]
fn update_status_leaves_metadata_unchanged_on_illegal_transition() {
    for from in [TraceStatus::Executed, TraceStatus::Failed] {
        for to in all_statuses() {
            let mut meta = metadata(from);
            let r = update_trace_status(&mut meta, to);
            assert!(matches!(r, Err(Failure::IllegalTransition { .. })));
            assert_eq!(meta.status, from);
            assert_eq!(meta.trace_id, "1700000000");
        }
    }
    let mut meta = metadata(TraceStatus::Initialized);
    assert!(update_trace_status(&mut meta, TraceStatus::Initialized).is_err());
    assert_eq!(meta.status, TraceStatus::Initialized);
}

#[test]
fn trace_id_is_the_timestamp_in_decimal() {
    assert_eq!(trace_id_at(0), "0");
    assert_eq!(trace_id_at(9), "9");
    assert_eq!(trace_id_at(10), "10");
    assert_eq!(trace_id_at(1700000000), "1700000000");
    assert_eq!(trace_id_at(u64::MAX), "18446744073709551615");
}

#[test]
fn generated_trace_id_is_a_decimal_timestamp() {
    let before = now_unix().unwrap();
    let id = generate_trace_id().unwrap();
    let after = now_unix().unwrap();
    assert!(!id.is_empty());
    assert!(id.chars().all(|c| c.is_ascii_digit()));
    let t: u64 = id.parse().unwrap();
    assert!(before <= t && t <= after);
    assert_eq!(trace_id_at(t), id);
    assert!(t > 1_600_000_000);
}

#[test]
fn layout_seeds_placeholders_and_initialized_metadata() {
    let mut writes: Vec<Write> = Vec::new();
    initialize_trace_layout(&mut writes, "42", 42);
    assert_eq!(writes.len(), 6);
    assert!(matches!(&writes[0], Write::Dir(d) if d == "resolved_context"));
    let seeded = ["prompt.txt", "response.txt", "memory_delta.yaml", "engine.yaml"];
    for (i, expected) in seeded.iter().enumerate() {
        match &writes[i + 1] {
            Write::Text { name, content } => {
                assert_eq!(name, expected);
                assert_eq!(content, "# placeholder\n");
            }
            other => panic!("unexpected write: {:?}", other),
        }
    }
    match &writes[5] {
        Write::Metadata(meta) => {
            assert_eq!(meta.trace_id, "42");
            assert_eq!(meta.timestamp_unix, 42);
            assert_eq!(meta.ratatoskr_version, "0.2.0-dev");
            assert_eq!(meta.status, TraceStatus::Initialized);
        }
        other => panic!("unexpected write: {:?}", other),
    }
}

#[test]
fn layout_is_appended_after_earlier_writes() {
    let mut writes = vec![Write::CreateTrace];
    initialize_trace_layout(&mut writes, "7", 7);
    assert_eq!(writes.len(), 7);
    assert!(matches!(&writes[0], Write::CreateTrace));
    assert!(matches!(&writes[1], Write::Dir(_)));
}

#[test]
fn text_write_holds_name_and_content() {
    match text_write("a.txt", "body") {
        Write::Text { name, content } => {
            assert_eq!(name, "a.txt");
            assert_eq!(content, "body");
        }
        other => panic!("unexpected write: {:?}", other),
    }
}

#[test]
fn failure_messages() {
    assert_eq!(Failure::Config("missing task.yaml".to_string()).message(), "missing task.yaml");
    assert_eq!(Failure::NotFound("threads/x.json".to_string()).message(), "not found: threads/x.json");
    assert_eq!(Failure::Store("thread.messages must be array".to_string()).message(), "thread.messages must be array");
    assert_eq!(
        Failure::MalformedMessage("m1".to_string()).message(),
        "invalid content in message m1 (must have exactly one of text|markdown)"
    );
    assert_eq!(Failure::UnsupportedMemorySystem.message(), "unsupported memory system");
    assert_eq!(Failure::AlreadyExists("17".to_string()).message(), "trace already exists: 17");
    assert_eq!(Failure::ResourceNotFound("gone".to_string()).message(), "gone");
    assert_eq!(Failure::Engine("boom".to_string()).message(), "boom");
    assert_eq!(Failure::UnexpectedEvent.message(), "event does not answer the pending request");
}

#[test]
fn failure_clone_keeps_kind_and_text() {
    let e = Failure::UnknownCitation("ab".to_string()).clone();
    assert!(matches!(e, Failure::UnknownCitation(ref id) if id == "ab"));
    let e = Failure::IllegalTransition { from: TraceStatus::Failed, to: TraceStatus::Executed }.clone();
    assert!(matches!(
        e,
        Failure::IllegalTransition { from: TraceStatus::Failed, to: TraceStatus::Executed }
    ));
}

#[test]
fn clock_answer_is_read_as_whole_seconds() {
    assert_eq!(unix_seconds(Ok(Duration::from_secs(0))).unwrap(), 0);
    assert_eq!(unix_seconds(Ok(Duration::from_millis(1_700_000_000_999))).unwrap(), 1_700_000_000);
    assert_eq!(unix_seconds(Ok(Duration::new(41, 999_999_999))).unwrap(), 41);
}

#[test]
fn clock_error_is_a_config_failure() {
    let now = SystemTime::now();
    let later = now + Duration::from_secs(3600);
    let error = now.duration_since(later);
    assert!(error.is_err());
    match unix_seconds(error) {
        Err(Failure::Config(why)) => assert_eq!(why, "system time error"),
        other => panic!("unexpected result: {:?}", other),
    }
}

#[test]
fn clock_reading_does_not_run_backwards_between_calls() {
    let first = now_unix().unwrap();
    let second = now_unix().unwrap();
    assert!(first <= second);
    assert!(second - first < 60);
}
