//! Entries of the conversation store, as they are logged for a prompt and for
//! a response.

use vstd::prelude::*;
use vstd::string::*;
use crate::text::{decimal, render_decimal};

verus! {

/// Schema version written into every entry.
pub const SCHEMA_VERSION: &'static str = "0.2";

/// Avatar under which a user's text is logged.
pub const AVATAR_USER: &'static str = "user";

/// Avatar under which a model's response is logged.
pub const AVATAR_LLM: &'static str = "llm";

/// One message of the conversation store.
#[derive(Debug)]
pub struct FurEntry {
    pub attachment: Option<String>,
    pub avatar: String,
    pub branches: Vec<String>,
    pub children: Vec<String>,
    pub id: String,
    pub markdown: Option<String>,
    pub parent: Option<String>,
    pub schema_version: String,
    pub text: Option<String>,
    pub timestamp: String,
}

/// The id of the entry logged at second `seconds`.
pub open spec fn entry_id(seconds: u64) -> Seq<char> {
    "fur-"@ + decimal(seconds as nat)
}

/// Name of the file that holds the entry `id`.
pub open spec fn entry_file(id: Seq<char>) -> Seq<char> {
    id + ".json"@
}

impl FurEntry {
    /// Whether this is a fresh entry of `avatar`, logged at second `seconds`
    /// with the time stamp `timestamp`: no attachment, no parent, no branches
    /// and no children.
    pub open spec fn is_fresh(self, avatar: Seq<char>, seconds: u64, timestamp: Seq<char>) -> bool {
        &&& self.attachment is None
        &&& self.avatar@ == avatar
        &&& self.branches@.len() == 0
        &&& self.children@.len() == 0
        &&& self.id@ == entry_id(seconds)
        &&& self.parent is None
        &&& self.schema_version@ == SCHEMA_VERSION@
        &&& self.timestamp@ == timestamp
    }

    /// Name of the file that holds this entry.
    pub fn file_name(&self) -> (out: String)
        ensures
            out@ == entry_file(self.id@),
    {
        self.id.clone().concat(".json")
    }
}

fn fresh_id(seconds: u64) -> (id: String)
    ensures
        id@ == entry_id(seconds),
{
    String::from_str("fur-").concat(render_decimal(seconds).as_str())
}

/// The entry that logs `text` as the user's, at second `seconds`.
pub fn log_text(text: &str, seconds: u64, timestamp: String) -> (entry: FurEntry)
    ensures
        entry.is_fresh(AVATAR_USER@, seconds, timestamp@),
        entry.text matches Some(t) && t@ == text@,
        entry.markdown is None,
{
    FurEntry {
        attachment: None,
        avatar: String::from_str(AVATAR_USER),
        branches: Vec::new(),
        children: Vec::new(),
        id: fresh_id(seconds),
        markdown: None,
        parent: None,
        schema_version: String::from_str(SCHEMA_VERSION),
        text: Some(String::from_str(text)),
        timestamp,
    }
}

/// The entry that logs the markdown document at `path` as the model's, at
/// second `seconds`.
pub fn log_markdown(path: &str, seconds: u64, timestamp: String) -> (entry: FurEntry)
    ensures
        entry.is_fresh(AVATAR_LLM@, seconds, timestamp@),
        entry.markdown matches Some(m) && m@ == path@,
        entry.text is None,
{
    FurEntry {
        attachment: None,
        avatar: String::from_str(AVATAR_LLM),
        branches: Vec::new(),
        children: Vec::new(),
        id: fresh_id(seconds),
        markdown: Some(String::from_str(path)),
        parent: None,
        schema_version: String::from_str(SCHEMA_VERSION),
        text: None,
        timestamp,
    }
}

} // verus!
