//! The interactive session: what a line typed at the prompt means, and what
//! the session remembers between commands.

use vstd::prelude::*;
use vstd::string::*;
use crate::engine::EngineSpec;
use crate::failure::{Failure, FailureView};
use crate::fur_bridge::{FurBridge, FurCommand, FurCommandView};
use crate::task::{ContextRef, ContextRefView};
use crate::text::{decimal, render_decimal, same_text, texts, trim, trimmed};

verus! {

/// Generation length given to the engine in interactive mode.
pub const INTERACTIVE_N_PREDICT: &'static str = "256";

/// What an interactive session remembers between commands.
#[derive(Debug)]
pub struct InteractiveSession {
    /// The prompt that the next `run` will send, if one was asked.
    pub pending_ask: Option<String>,
    /// The files attached as context since the last `run`.
    pub pending_context: Vec<ContextRef>,
}

/// A command of the interactive prompt.
#[derive(Debug)]
pub enum Command {
    Ask,
    Attach,
    Run,
    Exit,
    /// An empty line.
    Empty,
    /// Anything else; holds the line as typed, without surrounding white space.
    Unknown(String),
}

/// `Command` with its text as a character sequence.
pub enum CommandView {
    Ask,
    Attach,
    Run,
    Exit,
    Empty,
    Unknown(Seq<char>),
}

impl View for Command {
    type V = CommandView;

    open spec fn view(&self) -> CommandView {
        match self {
            Command::Ask => CommandView::Ask,
            Command::Attach => CommandView::Attach,
            Command::Run => CommandView::Run,
            Command::Exit => CommandView::Exit,
            Command::Empty => CommandView::Empty,
            Command::Unknown(s) => CommandView::Unknown(s@),
        }
    }
}

/// The command that a word stands for.
pub open spec fn command_of(word: Seq<char>) -> CommandView {
    if word == "ask"@ {
        CommandView::Ask
    } else if word == "attach"@ {
        CommandView::Attach
    } else if word == "run"@ {
        CommandView::Run
    } else if word == "exit"@ || word == "quit"@ {
        CommandView::Exit
    } else if word.len() == 0 {
        CommandView::Empty
    } else {
        CommandView::Unknown(word)
    }
}

/// Reads a line typed at the prompt as a command; white space around it does
/// not count.
pub fn parse_command(line: &str) -> (cmd: Command)
    ensures
        cmd@ == command_of(trim(line@)),
{
    let word = trimmed(line);
    if same_text(word.as_str(), "ask") {
        Command::Ask
    } else if same_text(word.as_str(), "attach") {
        Command::Attach
    } else if same_text(word.as_str(), "run") {
        Command::Run
    } else if same_text(word.as_str(), "exit") || same_text(word.as_str(), "quit") {
        Command::Exit
    } else if word.as_str().is_empty() {
        Command::Empty
    } else {
        Command::Unknown(word)
    }
}

/// How something is attached to the session.
#[derive(Clone, Copy, Debug, PartialEq, Eq, Structural)]
pub enum AttachMode {
    /// An empty line: nothing is attached.
    Nothing,
    /// A chat, captured by `fur` itself.
    Chat,
    /// A file, by its path.
    Path,
    /// Anything else.
    Unknown,
}

/// The attach mode that a word stands for.
pub open spec fn attach_mode_of(word: Seq<char>) -> AttachMode {
    if word.len() == 0 {
        AttachMode::Nothing
    } else if word == "chat"@ {
        AttachMode::Chat
    } else if word == "path"@ {
        AttachMode::Path
    } else {
        AttachMode::Unknown
    }
}

/// Reads a line typed in answer to the attach prompt.
pub fn parse_attach_mode(line: &str) -> (mode: AttachMode)
    ensures
        mode == attach_mode_of(trim(line@)),
{
    let word = trimmed(line);
    if word.as_str().is_empty() {
        AttachMode::Nothing
    } else if same_text(word.as_str(), "chat") {
        AttachMode::Chat
    } else if same_text(word.as_str(), "path") {
        AttachMode::Path
    } else {
        AttachMode::Unknown
    }
}

/// The prompt that a typed line asks: the line without surrounding white
/// space, or nothing when that leaves it empty.
pub fn ask_text(line: &str) -> (text: Option<String>)
    ensures
        trim(line@).len() == 0 ==> text is None,
        trim(line@).len() > 0 ==> (text matches Some(t) && t@ == trim(line@)),
{
    let text = trimmed(line);
    if text.as_str().is_empty() {
        None
    } else {
        Some(text)
    }
}

/// Name of the file that holds the response captured at second `seconds`.
pub open spec fn response_file(seconds: u64) -> Seq<char> {
    "responses/RESPONSE-"@ + decimal(seconds as nat) + ".md"@
}

/// Name of the file that holds the response captured at second `seconds`.
pub fn response_file_name(seconds: u64) -> (out: String)
    ensures
        out@ == response_file(seconds),
{
    String::from_str("responses/RESPONSE-").concat(render_decimal(seconds).as_str()).concat(".md")
}

/// The arguments the engine is started with in interactive mode.
pub fn run_arguments(engine: &EngineSpec, prompt: &str) -> (args: Vec<String>)
    ensures
        texts(args@) == seq!["-m"@, engine.model@, "-p"@, prompt@, "-n"@, INTERACTIVE_N_PREDICT@],
{
    let mut args: Vec<String> = Vec::new();
    args.push(String::from_str("-m"));
    args.push(engine.model.clone());
    args.push(String::from_str("-p"));
    args.push(String::from_str(prompt));
    args.push(String::from_str("-n"));
    args.push(String::from_str(INTERACTIVE_N_PREDICT));
    assert(texts(args@) =~= seq![
        "-m"@,
        engine.model@,
        "-p"@,
        prompt@,
        "-n"@,
        INTERACTIVE_N_PREDICT@,
    ]);
    args
}

/// How a captured response is logged: under the engine's avatar if it has
/// one, else as the main avatar.
pub fn log_command(engine: &EngineSpec, response_path: &str) -> (cmd: FurCommand)
    ensures
        cmd@ == match engine@.avatar {
            Some(avatar) => FurCommandView {
                args: seq!["jot"@, avatar, "--markdown"@, response_path@],
                on_failure: Some(
                    "fur jot "@ + avatar + " --markdown "@ + response_path@ + " failed"@,
                ),
            },
            None => FurCommandView {
                args: seq!["jot"@, "--markdown"@, response_path@],
                on_failure: Some("fur jot --markdown "@ + response_path@ + " failed"@),
            },
        },
{
    match &engine.avatar {
        Some(avatar) => FurBridge::jot_markdown_as(avatar.as_str(), response_path),
        None => FurBridge::jot_main_markdown(response_path),
    }
}

/// The context references of a session as views, in order.
pub open spec fn context_views(refs: Seq<ContextRef>) -> Seq<ContextRefView> {
    refs.map_values(|c: ContextRef| c@)
}

impl InteractiveSession {
    /// A session that remembers nothing yet.
    pub fn new() -> (session: InteractiveSession)
        ensures
            session.pending_ask is None,
            session.pending_context@.len() == 0,
    {
        InteractiveSession { pending_ask: None, pending_context: Vec::new() }
    }

    /// Remembers `text` as the prompt of the next run, in place of any before.
    pub fn record_ask(&mut self, text: String)
        ensures
            final(self).pending_ask matches Some(t) && t@ == text@,
            context_views(final(self).pending_context@) == context_views(
                old(self).pending_context@,
            ),
    {
        self.pending_ask = Some(text);
    }

    /// Attaches the file at `path` as context, whole: without a line range
    /// and without a section.
    pub fn attach_path(&mut self, path: &str)
        ensures
            context_views(final(self).pending_context@) == context_views(
                old(self).pending_context@,
            ).push(ContextRefView { path: path@, lines: None, section: None }),
            final(self).pending_ask == old(self).pending_ask,
    {
        let ghost before = context_views(self.pending_context@);
        self.pending_context.push(
            ContextRef { path: String::from_str(path), lines: None, section: None },
        );
        assert(context_views(self.pending_context@) =~= before.push(
            ContextRefView { path: path@, lines: None, section: None },
        ));
    }

    /// Takes the pending prompt out of the session for a run; without one the
    /// run cannot start.
    pub fn take_ask(&mut self) -> (r: Result<String, Failure>)
        ensures
            final(self).pending_ask is None,
            context_views(final(self).pending_context@) == context_views(
                old(self).pending_context@,
            ),
            match old(self).pending_ask {
                Some(asked) => r matches Ok(prompt) && prompt@ == asked@,
                None => r matches Err(e) && e@ == FailureView::Config("no ask"@),
            },
    {
        match self.pending_ask.take() {
            Some(prompt) => Ok(prompt),
            None => Err(Failure::Config(String::from_str("no ask"))),
        }
    }

    /// Forgets the attached context once a run's response is logged.
    pub fn finish_run(&mut self)
        ensures
            final(self).pending_context@.len() == 0,
            final(self).pending_ask == old(self).pending_ask,
    {
        self.pending_context.clear();
    }
}

} // verus!
