//! Delegation to the `fur` command-line tool: which arguments each operation
//! passes, and what is reported when the tool fails.

use vstd::prelude::*;
use vstd::string::*;
use crate::text::texts;

verus! {

/// Name of the program that every operation starts.
pub const FUR_PROGRAM: &'static str = "fur";

/// One invocation of `fur`: its arguments, and the message to fail with when
/// it exits unsuccessfully. Without a message the exit status is not looked
/// at.
#[derive(Debug)]
pub struct FurCommand {
    pub args: Vec<String>,
    pub on_failure: Option<String>,
}

/// `FurCommand` with its texts as character sequences.
pub struct FurCommandView {
    pub args: Seq<Seq<char>>,
    pub on_failure: Option<Seq<char>>,
}

impl View for FurCommand {
    type V = FurCommandView;

    open spec fn view(&self) -> FurCommandView {
        FurCommandView {
            args: texts(self.args@),
            on_failure: match self.on_failure {
                Some(m) => Some(m@),
                None => None,
            },
        }
    }
}

/// The bridge to `fur`. It never writes to the conversation store itself.
#[derive(Debug)]
pub struct FurBridge {}

impl FurBridge {
    /// `fur jot <text>`: a short message as the main avatar.
    pub fn jot_main(text: &str) -> (cmd: FurCommand)
        ensures
            cmd@ == (FurCommandView {
                args: seq!["jot"@, text@],
                on_failure: Some("fur jot (main avatar) failed"@),
            }),
    {
        let mut args: Vec<String> = Vec::new();
        args.push(String::from_str("jot"));
        args.push(String::from_str(text));
        assert(texts(args@) =~= seq!["jot"@, text@]);
        FurCommand { args, on_failure: Some(String::from_str("fur jot (main avatar) failed")) }
    }

    /// `fur jot <avatar> --markdown <path>`: a markdown file as a secondary
    /// avatar, which must be registered already.
    pub fn jot_markdown_as(avatar: &str, markdown_path: &str) -> (cmd: FurCommand)
        ensures
            cmd@ == (FurCommandView {
                args: seq!["jot"@, avatar@, "--markdown"@, markdown_path@],
                on_failure: Some(
                    "fur jot "@ + avatar@ + " --markdown "@ + markdown_path@ + " failed"@,
                ),
            }),
    {
        let mut args: Vec<String> = Vec::new();
        args.push(String::from_str("jot"));
        args.push(String::from_str(avatar));
        args.push(String::from_str("--markdown"));
        args.push(String::from_str(markdown_path));
        assert(texts(args@) =~= seq!["jot"@, avatar@, "--markdown"@, markdown_path@]);
        let message = String::from_str("fur jot ").concat(avatar).concat(" --markdown ").concat(
            markdown_path,
        ).concat(" failed");
        FurCommand { args, on_failure: Some(message) }
    }

    /// `fur chat`: the tool's own interactive capture, for long pastes.
    pub fn chat() -> (cmd: FurCommand)
        ensures
            cmd@ == (FurCommandView { args: seq!["chat"@], on_failure: Some("fur chat failed"@) }),
    {
        let mut args: Vec<String> = Vec::new();
        args.push(String::from_str("chat"));
        assert(texts(args@) =~= seq!["chat"@]);
        FurCommand { args, on_failure: Some(String::from_str("fur chat failed")) }
    }

    /// `fur --version`: only that the tool can be started matters, not how it
    /// exits.
    pub fn ensure_available() -> (cmd: FurCommand)
        ensures
            cmd@ == (FurCommandView { args: seq!["--version"@], on_failure: None }),
    {
        let mut args: Vec<String> = Vec::new();
        args.push(String::from_str("--version"));
        assert(texts(args@) =~= seq!["--version"@]);
        FurCommand { args, on_failure: None }
    }

    /// `fur jot --markdown <path>`: a markdown file as the main avatar.
    pub fn jot_main_markdown(markdown_path: &str) -> (cmd: FurCommand)
        ensures
            cmd@ == (FurCommandView {
                args: seq!["jot"@, "--markdown"@, markdown_path@],
                on_failure: Some("fur jot --markdown "@ + markdown_path@ + " failed"@),
            }),
    {
        let mut args: Vec<String> = Vec::new();
        args.push(String::from_str("jot"));
        args.push(String::from_str("--markdown"));
        args.push(String::from_str(markdown_path));
        assert(texts(args@) =~= seq!["jot"@, "--markdown"@, markdown_path@]);
        let message = String::from_str("fur jot --markdown ").concat(markdown_path).concat(
            " failed",
        );
        FurCommand { args, on_failure: Some(message) }
    }
}

} // verus!
