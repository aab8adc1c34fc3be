use std::collections::HashMap;

use ratatoskr::engine::{EngineChoice, EngineSpec};
use ratatoskr::execute::{
    assemble_prompt, build_prompt, execute_task, used_atoms, Event, Execution, Next, Stage, Step,
};
use ratatoskr::failure::Failure;
use ratatoskr::fur_atom::{FurAtom, StoreReply, StoreRequest};
use ratatoskr::task::{MemoryRef, Task};
use ratatoskr::trace::{TraceStatus, Write};

const SHA_FIRST: &str = "a7937b64b8caa58f03721bb6bacf5c78cb235febe0e70b1b84cd99541461a08e";
const SHA_SECOND: &str = "16367aacb67a4a017c8da8ab95682ccb390863780f7114dda0a0e0c55644c7c4";

fn task_with(engine_type: &str, convos: &[(&str, &str)]) -> Task {
    Task {
        task_type: "summarize".to_string(),
        prompt: "Summarize the thread.".to_string(),
        memory_scope: "project".to_string(),
        context: Vec::new(),
        engine: EngineSpec {
            engine_type: engine_type.to_string(),
            name: "bin/llama".to_string(),
            model: "models/m.gguf".to_string(),
            avatar: None,
        },
        memory_refs: convos
            .iter()
            .map(|(system, convo)| MemoryRef {
                system: system.to_string(),
                convo_id: convo.to_string(),
            })
            .collect(),
    }
}

fn store() -> HashMap<String, String> {
    let mut s = HashMap::new();
    s.insert("threads/c1.json".to_string(), r#"{"messages": ["aa-01", "bb-02"]}"#.to_string());
    s.insert("messages/aa-01.json".to_string(), r#"{"text": "first"}"#.to_string());
    s.insert("messages/bb-02.json".to_string(), r#"{"text": "second"}"#.to_string());
    s.insert("threads/c2.json".to_string(), r#"{"messages": ["cc-03", "dd-04", "ee-05"]}"#.to_string());
    s.insert("messages/cc-03.json".to_string(), r#"{"text": "third"}"#.to_string());
    s.insert("messages/dd-04.json".to_string(), r#"{"markdown": "docs/four.md"}"#.to_string());
    s.insert("docs/four.md".to_string(), "# four\n".to_string());
    s.insert("messages/ee-05.json".to_string(), r#"{"text": "fifth"}"#.to_string());
    s.insert("threads/bad.json".to_string(), r#"{"messages": ["xx-00"]}"#.to_string());
    s.insert("messages/xx-00.json".to_string(), r#"{"text": "a", "markdown": "b"}"#.to_string());
    s
}

struct Run {
    execution: Execution,
    writes: Vec<Write>,
    statuses: Vec<TraceStatus>,
    prompt: Option<String>,
    engine: Option<EngineChoice>,
    result: Result<String, Failure>,
}

fn drive(
    task: Task,
    now: u64,
    trace_exists: bool,
    chunks: Vec<String>,
    engine: &dyn Fn(&str) -> Result<String, Failure>,
) -> Run {
    let records = store();
    let (mut execution, mut step) = execute_task(task, now);
    let mut writes: Vec<Write> = Vec::new();
    let mut statuses: Vec<TraceStatus> = Vec::new();
    let mut prompt = None;
    let mut chosen = None;
    loop {
        let Step { writes: asked, next } = step;
        for w in asked {
            if let Write::Status(s) = &w {
                statuses.push(*s);
            }
            writes.push(w);
        }
        let event = match next {
            Next::Probe(id) => {
                assert_eq!(id, now.to_string());
                Event::Probed { exists: trace_exists }
            }
            Next::Fetch(request) => {
                let path = match request {
                    StoreRequest::Thread(p) => p,
                    StoreRequest::Message(p) => p,
                    StoreRequest::Document(p) => p,
                };
                Event::Store(match records.get(&path) {
                    Some(text) => StoreReply::Content(text.clone()),
                    None => StoreReply::Missing,
                })
            }
            Next::Context => Event::Context(chunks.clone()),
            Next::Engine { choice, prompt: p } => {
                let answer = engine(&p);
                prompt = Some(p);
                chosen = Some(choice);
                Event::Engine(answer)
            }
            Next::Finish(result) => {
                return Run { execution, writes, statuses, prompt, engine: chosen, result };
            }
        };
        step = execution.step(event);
    }
}

fn echo(text: &'static str) -> impl Fn(&str) -> Result<String, Failure> {
    move |_prompt| Ok(text.to_string())
}

fn text_written<'a>(writes: &'a [Write], wanted: &str) -> Vec<&'a str> {
    writes
        .iter()
        .filter_map(|w| match w {
            Write::Text { name, content } if name == wanted => Some(content.as_str()),
            _ => None,
        })
        .collect()
}

#[test]
fn grounded_response_executes_and_ledger_holds_the_cited_atom() {
    let run = drive(task_with("stub", &[("fur", "c1")]), 1700000000, false, vec![], &echo("Answer. [FUR:aa-01]"));
    assert!(matches!(run.result, Ok(ref name) if name == "response.md"));
    assert_eq!(run.execution.status, Some(TraceStatus::Executed));
    assert_eq!(run.execution.stage, Stage::Closed);
    assert_eq!(run.statuses, vec![TraceStatus::Executed]);
    let usage: Vec<&Write> = run.writes.iter().filter(|w| matches!(w, Write::Usage(_))).collect();
    assert_eq!(usage.len(), 1);
    match usage[0] {
        Write::Usage(rows) => {
            assert_eq!(rows.len(), 1);
            assert_eq!(rows[0].message_id, "aa-01");
            assert_eq!(rows[0].convo_id, "c1");
            assert_eq!(rows[0].sha256, SHA_FIRST);
            assert_eq!(rows[0].order, 0);
        }
        _ => unreachable!(),
    }
    assert_eq!(text_written(&run.writes, "response.txt"), vec!["# placeholder\n", "Answer. [FUR:aa-01]"]);
    assert_eq!(text_written(&run.writes, "response.md"), vec!["Answer. [FUR:aa-01]"]);
    assert_eq!(
        text_written(&run.writes, "engine.yaml"),
        vec!["# placeholder\n", "engine: stub\nmodel: none\npurpose: lifecycle validation\n"]
    );
    assert!(text_written(&run.writes, "violation.txt").is_empty());
    assert!(matches!(run.writes.last(), Some(Write::Status(TraceStatus::Executed))));
}

#[test]
fn writes_of_a_successful_run_come_in_stage_order() {
    let run = drive(task_with("stub", &[("fur", "c1")]), 5, false, vec![], &echo("[FUR:bb-02]"));
    let kinds: Vec<String> = run
        .writes
        .iter()
        .map(|w| match w {
            Write::CreateTrace => "create".to_string(),
            Write::Dir(d) => format!("dir:{}", d),
            Write::Text { name, .. } => format!("text:{}", name),
            Write::Metadata(_) => "metadata".to_string(),
            Write::Input => "input".to_string(),
            Write::Materials => "materials".to_string(),
            Write::Usage(_) => "usage".to_string(),
            Write::Status(_) => "status".to_string(),
        })
        .collect();
    assert_eq!(
        kinds,
        vec![
            "create",
            "dir:resolved_context",
            "text:prompt.txt",
            "text:response.txt",
            "text:memory_delta.yaml",
            "text:engine.yaml",
            "metadata",
            "input",
            "materials",
            "text:prompt.txt",
            "text:response.txt",
            "text:response.md",
            "text:engine.yaml",
            "usage",
            "status",
        ]
    );
}

#[test]
fn response_without_citation_fails_the_trace() {
    let run = drive(task_with("stub", &[("fur", "c1")]), 1700000001, false, vec![], &echo("I know nothing."));
    assert!(matches!(run.result, Err(Failure::NoCitations)));
    assert_eq!(run.execution.status, Some(TraceStatus::Failed));
    assert_eq!(run.statuses, vec![TraceStatus::Failed]);
    assert!(!run.statuses.contains(&TraceStatus::Executed));
    assert_eq!(text_written(&run.writes, "violation.txt"), vec!["model produced no material citations"]);
    assert_eq!(text_written(&run.writes, "response.txt"), vec!["# placeholder\n", "I know nothing."]);
    assert!(text_written(&run.writes, "response.md").is_empty());
    assert!(!run.writes.iter().any(|w| matches!(w, Write::Usage(_))));
}

#[test]
fn response_citing_an_unknown_id_fails_the_trace() {
    let run = drive(task_with("stub", &[("fur", "c1")]), 1700000002, false, vec![], &echo("See [FUR:aa-01] and [FUR:ff-99]."));
    assert!(matches!(run.result, Err(Failure::UnknownCitation(ref id)) if id == "ff-99"));
    assert_eq!(run.execution.status, Some(TraceStatus::Failed));
    assert_eq!(run.statuses, vec![TraceStatus::Failed]);
    assert_eq!(
        text_written(&run.writes, "violation.txt"),
        vec!["invalid citation: FUR:ff-99 (not in material ledger)"]
    );
}

#[test]
fn two_memory_references_concatenate_in_reference_order() {
    let run = drive(
        task_with("stub", &[("fur", "c2"), ("fur", "c1")]),
        9,
        false,
        vec![],
        &echo("[FUR:dd-04] [FUR:aa-01]"),
    );
    assert!(run.result.is_ok());
    let atoms = &run.execution.atoms;
    let ids: Vec<&str> = atoms.iter().map(|a| a.message_id.as_str()).collect();
    assert_eq!(ids, vec!["cc-03", "dd-04", "ee-05", "aa-01", "bb-02"]);
    let orders: Vec<usize> = atoms.iter().map(|a| a.order).collect();
    assert_eq!(orders, vec![0, 1, 2, 0, 1]);
    let convos: Vec<&str> = atoms.iter().map(|a| a.convo_id.as_str()).collect();
    assert_eq!(convos, vec!["c2", "c2", "c2", "c1", "c1"]);
    assert_eq!(atoms[1].source, "markdown");
    assert_eq!(atoms[1].content, "# four\n");
    assert!(atoms.iter().all(|a| a.verify_hash()));
    match run.writes.iter().find(|w| matches!(w, Write::Usage(_))) {
        Some(Write::Usage(rows)) => {
            let used: Vec<&str> = rows.iter().map(|r| r.message_id.as_str()).collect();
            assert_eq!(used, vec!["dd-04", "aa-01"]);
        }
        _ => panic!("no usage ledger"),
    }
}

#[test]
fn same_conversation_twice_keeps_both_runs_of_atoms() {
    let run = drive(task_with("stub", &[("fur", "c1"), ("fur", "c1")]), 9, false, vec![], &echo("[FUR:aa-01]"));
    let ids: Vec<&str> = run.execution.atoms.iter().map(|a| a.message_id.as_str()).collect();
    assert_eq!(ids, vec!["aa-01", "bb-02", "aa-01", "bb-02"]);
}

#[test]
fn taken_trace_id_fails_without_a_write() {
    let run = drive(task_with("stub", &[("fur", "c1")]), 1700000003, true, vec![], &echo("[FUR:aa-01]"));
    assert!(matches!(run.result, Err(Failure::AlreadyExists(ref id)) if id == "1700000003"));
    assert!(run.writes.is_empty());
    assert_eq!(run.execution.status, None);
    assert!(run.prompt.is_none());
    assert_eq!(run.execution.stage, Stage::Closed);
}

#[test]
fn unsupported_memory_system_stops_before_any_fetch() {
    let run = drive(task_with("stub", &[("fur", "c1"), ("other", "c2")]), 4, false, vec![], &echo("[FUR:aa-01]"));
    assert!(matches!(run.result, Err(Failure::UnsupportedMemorySystem)));
    assert_eq!(run.execution.status, Some(TraceStatus::Initialized));
    assert!(run.statuses.is_empty());
    assert!(run.prompt.is_none());
    assert!(!run.writes.iter().any(|w| matches!(w, Write::Materials)));
    assert_eq!(run.execution.atoms.len(), 2);
}

#[test]
fn missing_conversation_is_not_found() {
    let run = drive(task_with("stub", &[("fur", "nope")]), 4, false, vec![], &echo("[FUR:aa-01]"));
    assert!(matches!(run.result, Err(Failure::NotFound(ref what)) if what == "threads/nope.json"));
    assert_eq!(run.execution.status, Some(TraceStatus::Initialized));
    assert!(run.statuses.is_empty());
}

#[test]
fn malformed_message_is_a_hard_stop() {
    let run = drive(task_with("stub", &[("fur", "c1"), ("fur", "bad")]), 4, false, vec![], &echo("[FUR:aa-01]"));
    assert!(matches!(run.result, Err(Failure::MalformedMessage(ref id)) if id == "xx-00"));
    assert!(run.prompt.is_none());
    assert!(run.statuses.is_empty());
}

#[test]
fn engine_failure_fails_the_trace() {
    let failing = |_p: &str| -> Result<String, Failure> { Err(Failure::Engine("llama.cpp execution failed:\nboom".to_string())) };
    let run = drive(task_with("llama.cpp", &[("fur", "c1")]), 4, false, vec![], &failing);
    assert!(matches!(run.result, Err(Failure::Engine(ref why)) if why == "llama.cpp execution failed:\nboom"));
    assert_eq!(run.execution.status, Some(TraceStatus::Failed));
    assert_eq!(run.statuses, vec![TraceStatus::Failed]);
    assert!(text_written(&run.writes, "violation.txt").is_empty());
    let missing = |_p: &str| -> Result<String, Failure> { Err(Failure::ResourceNotFound("model file not found: m".to_string())) };
    let run = drive(task_with("llama.cpp", &[("fur", "c1")]), 4, false, vec![], &missing);
    assert!(matches!(run.result, Err(Failure::ResourceNotFound(_))));
    assert_eq!(run.execution.status, Some(TraceStatus::Failed));
}

#[test]
fn unknown_engine_type_is_a_config_failure_after_the_prompt_is_written() {
    let run = drive(task_with("gpt", &[("fur", "c1")]), 4, false, vec![], &echo("[FUR:aa-01]"));
    assert!(matches!(run.result, Err(Failure::Config(ref why)) if why == "unsupported engine type: gpt"));
    assert_eq!(run.execution.status, Some(TraceStatus::Initialized));
    assert_eq!(text_written(&run.writes, "prompt.txt").len(), 2);
    assert!(run.engine.is_none());
}

#[test]
fn engine_choice_follows_the_task() {
    let run = drive(task_with("stub", &[]), 4, false, vec![], &echo("x"));
    assert!(matches!(run.engine, Some(EngineChoice::Stub(_))));
    let run = drive(task_with("llama.cpp", &[]), 4, false, vec![], &echo("x"));
    match run.engine {
        Some(EngineChoice::LlamaCpp(e)) => {
            assert_eq!(e.binary, "bin/llama");
            assert_eq!(e.model, "models/m.gguf");
            assert_eq!(e.n_predict, 512);
        }
        other => panic!("unexpected engine: {:?}", other),
    }
}

#[test]
fn task_without_material_still_needs_a_citation() {
    let run = drive(task_with("stub", &[]), 4, false, vec![], &echo("fine"));
    assert!(matches!(run.result, Err(Failure::NoCitations)));
    let run = drive(task_with("stub", &[]), 4, false, vec![], &echo("[FUR:aa-01]"));
    assert!(matches!(run.result, Err(Failure::UnknownCitation(_))));
}

#[test]
fn event_that_answers_nothing_ends_the_execution() {
    let (mut execution, _) = execute_task(task_with("stub", &[("fur", "c1")]), 4);
    let step = execution.step(Event::Context(vec![]));
    assert!(step.writes.is_empty());
    assert!(matches!(step.next, Next::Finish(Err(Failure::UnexpectedEvent))));
    assert_eq!(execution.stage, Stage::Closed);
    assert_eq!(execution.status, None);
    let step = execution.step(Event::Probed { exists: false });
    assert!(step.writes.is_empty());
    assert!(matches!(step.next, Next::Finish(Err(Failure::UnexpectedEvent))));
}

#[test]
fn terminal_status_is_never_left() {
    let mut run = drive(task_with("stub", &[("fur", "c1")]), 4, false, vec![], &echo("[FUR:aa-01]"));
    assert_eq!(run.execution.status, Some(TraceStatus::Executed));
    let step = run.execution.step(Event::Engine(Ok("no citation".to_string())));
    assert!(step.writes.is_empty());
    assert_eq!(run.execution.status, Some(TraceStatus::Executed));
    let step = run.execution.step(Event::Engine(Err(Failure::Engine("x".to_string()))));
    assert!(step.writes.is_empty());
    assert_eq!(run.execution.status, Some(TraceStatus::Executed));
}

#[test]
fn prompt_has_preamble_atoms_task_and_context_in_order() {
    let run = drive(
        task_with("stub", &[("fur", "c1")]),
        4,
        false,
        vec!["chunk one\n".to_string(), "chunk two".to_string()],
        &echo("[FUR:aa-01]"),
    );
    let expected = format!(
        "SYSTEM:\nYou may ONLY use the following material atoms.\nCite atoms as [FUR:<message_id>].\n\n\
=== ATOM FUR:aa-01:{} ===\nfirst\n\n\
=== ATOM FUR:bb-02:{} ===\nsecond\n\n\
\n=== TASK ===\nTASK TYPE: summarize\nMEMORY SCOPE: project\n\nSummarize the thread.\
\n\n--- CONTEXT ---\nchunk one\n\
\n\n--- CONTEXT ---\nchunk two",
        SHA_FIRST, SHA_SECOND
    );
    assert_eq!(run.prompt.as_deref(), Some(expected.as_str()));
    assert_eq!(text_written(&run.writes, "prompt.txt"), vec!["# placeholder\n", expected.as_str()]);
}

#[test]
fn prompt_assembly_is_deterministic() {
    let task = task_with("stub", &[]);
    let atoms = vec![
        FurAtom::seal("c1", "aa-01".to_string(), 0, "text", "first".to_string()),
        FurAtom::seal("c1", "bb-02".to_string(), 1, "text", "second".to_string()),
    ];
    let chunks = vec!["ctx".to_string()];
    let one = build_prompt(&task, &atoms, &chunks);
    let two = build_prompt(&task, &atoms, &chunks);
    assert_eq!(one.as_bytes(), two.as_bytes());
    let same_task = task_with("stub", &[]);
    let same_atoms: Vec<FurAtom> = atoms.iter().map(|a| a.clone()).collect();
    let three = build_prompt(&same_task, &same_atoms, &vec!["ctx".to_string()]);
    assert_eq!(one, three);
}

#[test]
fn prompt_without_atoms_or_context() {
    let task = task_with("stub", &[]);
    let prompt = build_prompt(&task, &[], &[]);
    assert_eq!(
        prompt,
        "SYSTEM:\nYou may ONLY use the following material atoms.\nCite atoms as [FUR:<message_id>].\n\n\n=== TASK ===\nTASK TYPE: summarize\nMEMORY SCOPE: project\n\nSummarize the thread."
    );
}

#[test]
fn task_section_of_the_prompt() {
    let task = task_with("stub", &[]);
    assert_eq!(assemble_prompt(&task), "TASK TYPE: summarize\nMEMORY SCOPE: project\n\nSummarize the thread.");
}

#[test]
fn usage_ledger_keeps_atom_order_and_ignores_citation_order() {
    let atoms = vec![
        FurAtom::seal("c1", "a".to_string(), 0, "text", "first".to_string()),
        FurAtom::seal("c1", "b".to_string(), 1, "text", "second".to_string()),
        FurAtom::seal("c2", "c".to_string(), 0, "text", "third".to_string()),
    ];
    let one = used_atoms(&atoms, &["c".to_string(), "a".to_string()]);
    let two = used_atoms(&atoms, &["a".to_string(), "c".to_string(), "a".to_string()]);
    let ids = |rows: &Vec<ratatoskr::execute::UsedAtom>| -> Vec<String> {
        rows.iter().map(|r| format!("{}/{}/{}", r.convo_id, r.message_id, r.order)).collect()
    };
    assert_eq!(ids(&one), vec!["c1/a/0", "c2/c/0"]);
    assert_eq!(ids(&one), ids(&two));
    assert_eq!(one[0].sha256, SHA_FIRST);
    assert!(used_atoms(&atoms, &[]).is_empty());
    assert!(used_atoms(&atoms, &["zz".to_string()]).is_empty());
}

#[test]
fn execution_starts_with_a_probe_for_the_decimal_timestamp() {
    let (execution, step) = execute_task(task_with("stub", &[]), 1234567890);
    assert_eq!(execution.trace_id, "1234567890");
    assert_eq!(execution.timestamp_unix, 1234567890);
    assert_eq!(execution.stage, Stage::AwaitProbe);
    assert_eq!(execution.status, None);
    assert!(execution.atoms.is_empty());
    assert!(step.writes.is_empty());
    assert!(matches!(step.next, Next::Probe(ref id) if id == "1234567890"));
}

#[test]
fn conclude_takes_the_citations_as_given() {
    let (mut execution, _) = execute_task(task_with("stub", &[]), 4);
    execution.atoms.push(FurAtom::seal("c1", "a".to_string(), 0, "text", "first".to_string()));
    let step = execution.conclude("free text".to_string(), vec!["a".to_string()]);
    assert!(matches!(step.next, Next::Finish(Ok(_))));
    assert_eq!(execution.status, Some(TraceStatus::Executed));
    let (mut execution, _) = execute_task(task_with("stub", &[]), 4);
    let step = execution.conclude("[FUR:a]".to_string(), vec![]);
    assert!(matches!(step.next, Next::Finish(Err(Failure::NoCitations))));
    assert_eq!(execution.status, Some(TraceStatus::Failed));
}
