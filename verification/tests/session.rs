use ratatoskr::engine::EngineSpec;
use ratatoskr::failure::Failure;
use ratatoskr::fur_bridge::{FurBridge, FUR_PROGRAM};
use ratatoskr::fur_logger::{log_markdown, log_text};
use ratatoskr::interactive::{
    ask_text, log_command, parse_attach_mode, parse_command, response_file_name, run_arguments,
    AttachMode, Command, InteractiveSession,
};
use ratatoskr::task::{MemoryRef, FUR_SYSTEM, TASK_FILE};

fn engine(avatar: Option<&str>) -> EngineSpec {
    EngineSpec {
        engine_type: "llama.cpp".to_string(),
        name: "llama".to_string(),
        model: "m.gguf".to_string(),
        avatar: avatar.map(|a| a.to_string()),
    }
}

#[test]
fn new_session_remembers_nothing() {
    let s = InteractiveSession::new();
    assert!(s.pending_ask.is_none());
    assert!(s.pending_context.is_empty());
}

#[test]
fn commands_are_read_without_surrounding_white_space() {
    assert!(matches!(parse_command("ask\n"), Command::Ask));
    assert!(matches!(parse_command("  attach  "), Command::Attach));
    assert!(matches!(parse_command("run"), Command::Run));
    assert!(matches!(parse_command("exit"), Command::Exit));
    assert!(matches!(parse_command("quit\r\n"), Command::Exit));
    assert!(matches!(parse_command(""), Command::Empty));
    assert!(matches!(parse_command(" \t\n"), Command::Empty));
    assert!(matches!(parse_command(" Ask \n"), Command::Unknown(ref w) if w == "Ask"));
    assert!(matches!(parse_command("ask me"), Command::Unknown(ref w) if w == "ask me"));
}

#[test]
fn attach_modes() {
    assert_eq!(parse_attach_mode("\n"), AttachMode::Nothing);
    assert_eq!(parse_attach_mode("chat\n"), AttachMode::Chat);
    assert_eq!(parse_attach_mode(" path "), AttachMode::Path);
    assert_eq!(parse_attach_mode("file"), AttachMode::Unknown);
}

#[test]
fn empty_ask_is_ignored() {
    assert_eq!(ask_text("  \n"), None);
    assert_eq!(ask_text(""), None);
    assert_eq!(ask_text("  what is this?  \n").as_deref(), Some("what is this?"));
}

#[test]
fn ask_is_kept_until_taken() {
    let mut s = InteractiveSession::new();
    s.record_ask("one".to_string());
    s.record_ask("two".to_string());
    assert_eq!(s.pending_ask.as_deref(), Some("two"));
    assert_eq!(s.take_ask().unwrap(), "two");
    assert!(s.pending_ask.is_none());
    match s.take_ask() {
        Err(Failure::Config(why)) => assert_eq!(why, "no ask"),
        other => panic!("unexpected result: {:?}", other),
    }
}

#[test]
fn attached_paths_are_whole_file_references_until_the_run_ends() {
    let mut s = InteractiveSession::new();
    s.record_ask("q".to_string());
    s.attach_path("notes/a.md");
    s.attach_path("b.txt");
    assert_eq!(s.pending_context.len(), 2);
    assert_eq!(s.pending_context[0].path, "notes/a.md");
    assert_eq!(s.pending_context[0].lines, None);
    assert_eq!(s.pending_context[0].section, None);
    assert_eq!(s.pending_context[1].path, "b.txt");
    assert_eq!(s.pending_ask.as_deref(), Some("q"));
    s.finish_run();
    assert!(s.pending_context.is_empty());
    assert_eq!(s.pending_ask.as_deref(), Some("q"));
}

#[test]
fn interactive_run_arguments_and_response_file() {
    assert_eq!(run_arguments(&engine(None), "hello"), vec!["-m", "m.gguf", "-p", "hello", "-n", "256"]);
    assert_eq!(response_file_name(1700000000), "responses/RESPONSE-1700000000.md");
    assert_eq!(response_file_name(0), "responses/RESPONSE-0.md");
}

#[test]
fn response_is_logged_under_the_avatar_if_there_is_one() {
    let cmd = log_command(&engine(Some("mistral")), "responses/R.md");
    assert_eq!(cmd.args, vec!["jot", "mistral", "--markdown", "responses/R.md"]);
    assert_eq!(cmd.on_failure.as_deref(), Some("fur jot mistral --markdown responses/R.md failed"));
    let cmd = log_command(&engine(None), "responses/R.md");
    assert_eq!(cmd.args, vec!["jot", "--markdown", "responses/R.md"]);
    assert_eq!(cmd.on_failure.as_deref(), Some("fur jot --markdown responses/R.md failed"));
}

#[test]
fn bridge_commands() {
    assert_eq!(FUR_PROGRAM, "fur");
    let cmd = FurBridge::jot_main("hello there");
    assert_eq!(cmd.args, vec!["jot", "hello there"]);
    assert_eq!(cmd.on_failure.as_deref(), Some("fur jot (main avatar) failed"));
    let cmd = FurBridge::jot_markdown_as("llm", "a.md");
    assert_eq!(cmd.args, vec!["jot", "llm", "--markdown", "a.md"]);
    assert_eq!(cmd.on_failure.as_deref(), Some("fur jot llm --markdown a.md failed"));
    let cmd = FurBridge::chat();
    assert_eq!(cmd.args, vec!["chat"]);
    assert_eq!(cmd.on_failure.as_deref(), Some("fur chat failed"));
    let cmd = FurBridge::ensure_available();
    assert_eq!(cmd.args, vec!["--version"]);
    assert_eq!(cmd.on_failure, None);
    let cmd = FurBridge::jot_main_markdown("a.md");
    assert_eq!(cmd.args, vec!["jot", "--markdown", "a.md"]);
    assert_eq!(cmd.on_failure.as_deref(), Some("fur jot --markdown a.md failed"));
}

#[test]
fn logged_text_entry() {
    let e = log_text("hi", 1700000000, "stamp".to_string());
    assert_eq!(e.id, "fur-1700000000");
    assert_eq!(e.avatar, "user");
    assert_eq!(e.text.as_deref(), Some("hi"));
    assert_eq!(e.markdown, None);
    assert_eq!(e.attachment, None);
    assert_eq!(e.parent, None);
    assert!(e.branches.is_empty());
    assert!(e.children.is_empty());
    assert_eq!(e.schema_version, "0.2");
    assert_eq!(e.timestamp, "stamp");
    assert_eq!(e.file_name(), "fur-1700000000.json");
}

#[test]
fn logged_markdown_entry() {
    let e = log_markdown("responses/R.md", 5, "stamp".to_string());
    assert_eq!(e.id, "fur-5");
    assert_eq!(e.avatar, "llm");
    assert_eq!(e.markdown.as_deref(), Some("responses/R.md"));
    assert_eq!(e.text, None);
    assert_eq!(e.schema_version, "0.2");
    assert_eq!(e.file_name(), "fur-5.json");
}

#[test]
fn memory_reference_support() {
    assert_eq!(FUR_SYSTEM, "fur");
    assert_eq!(TASK_FILE, "task.yaml");
    let m = MemoryRef { system: "fur".to_string(), convo_id: "c".to_string() };
    assert!(m.is_supported());
    let c = m.clone();
    assert_eq!(c.system, "fur");
    assert_eq!(c.convo_id, "c");
    assert!(!MemoryRef { system: "FUR".to_string(), convo_id: "c".to_string() }.is_supported());
    assert!(!MemoryRef { system: String::new(), convo_id: "c".to_string() }.is_supported());
}
