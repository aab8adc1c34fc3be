//! Material atoms: content-addressed snapshots of conversation messages, and
//! the resolver that reads a conversation into them.

use vstd::prelude::*;
use vstd::string::*;
use sha2::{Digest, Sha256};
use crate::failure::{Failure, FailureView};
use crate::task::FUR_SYSTEM;
use crate::text::same_text;

verus! {

/// What the header of an atom's block in the prompt begins with.
pub const ATOM_HEADER: &'static str = "=== ATOM FUR:";

/// Source kind of an atom whose content was stored inline.
pub const SOURCE_TEXT: &'static str = "text";

/// Source kind of an atom whose content was read from a document.
pub const SOURCE_MARKDOWN: &'static str = "markdown";

/// The SHA-256 digest of the UTF-8 encoding of `content`, as 64 lowercase
/// hexadecimal digits.
pub uninterp spec fn sha256_hex(content: Seq<char>) -> Seq<char>;

/// Calls `sha2::Sha256` (`new`, `update`, `finalize`) on the bytes of `s` and
/// formats the digest with `{:x}`. Trusted: the result is the digest named
/// `sha256_hex`, a function of the text alone.
#[verifier::external_body]
fn sha256_str(s: &str) -> (out: String)
    ensures
        out@ == sha256_hex(s@),
{
    let mut h = Sha256::new();
    h.update(s.as_bytes());
    format!("{:x}", h.finalize())
}

/// One unit of grounding material: a message of a conversation, with the
/// content the engine is shown and the digest of that content.
#[derive(Debug)]
pub struct FurAtom {
    /// Memory system the atom comes from.
    pub system: String,
    /// Conversation the message belongs to.
    pub convo_id: String,
    /// The message's id, by which responses cite it.
    pub message_id: String,
    /// Position of the message within its conversation, from zero.
    pub order: usize,
    /// `"text"` or `"markdown"`.
    pub source: String,
    /// The content as resolved: what the engine sees.
    pub content: String,
    /// Digest of `content`.
    pub sha256: String,
}

/// `FurAtom` with its texts as character sequences.
pub struct FurAtomView {
    pub system: Seq<char>,
    pub convo_id: Seq<char>,
    pub message_id: Seq<char>,
    pub order: usize,
    pub source: Seq<char>,
    pub content: Seq<char>,
    pub sha256: Seq<char>,
}

impl View for FurAtom {
    type V = FurAtomView;

    open spec fn view(&self) -> FurAtomView {
        FurAtomView {
            system: self.system@,
            convo_id: self.convo_id@,
            message_id: self.message_id@,
            order: self.order,
            source: self.source@,
            content: self.content@,
            sha256: self.sha256@,
        }
    }
}

impl FurAtomView {
    /// The stored digest is the digest of the content.
    pub open spec fn hash_intact(self) -> bool {
        self.sha256 == sha256_hex(self.content)
    }

    /// The atom as resolution makes it from a message of `convo_id`.
    pub open spec fn sealed(
        convo_id: Seq<char>,
        message_id: Seq<char>,
        order: usize,
        source: Seq<char>,
        content: Seq<char>,
    ) -> FurAtomView {
        FurAtomView {
            system: FUR_SYSTEM@,
            convo_id,
            message_id,
            order,
            source,
            content,
            sha256: sha256_hex(content),
        }
    }
}

/// The views of a run of atoms, in the same order.
pub open spec fn atom_views(atoms: Seq<FurAtom>) -> Seq<FurAtomView> {
    atoms.map_values(|a: FurAtom| a@)
}

/// The message ids of a run of atoms, in the same order.
pub open spec fn message_ids(atoms: Seq<FurAtomView>) -> Seq<Seq<char>> {
    atoms.map_values(|a: FurAtomView| a.message_id)
}

impl FurAtom {
    /// Makes the atom for a message, computing the digest from `content`.
    pub fn seal(
        convo_id: &str,
        message_id: String,
        order: usize,
        source: &str,
        content: String,
    ) -> (atom: FurAtom)
        ensures
            atom@ == FurAtomView::sealed(convo_id@, message_id@, order, source@, content@),
            atom@.hash_intact(),
    {
        let sha256 = sha256_str(content.as_str());
        FurAtom {
            system: String::from_str(FUR_SYSTEM),
            convo_id: String::from_str(convo_id),
            message_id,
            order,
            source: String::from_str(source),
            content,
            sha256,
        }
    }

    /// Recomputes the digest of the content and compares it with the stored one.
    pub fn verify_hash(&self) -> (ok: bool)
        ensures
            ok == self@.hash_intact(),
    {
        let fresh = sha256_str(self.content.as_str());
        same_text(fresh.as_str(), self.sha256.as_str())
    }
}

impl Clone for FurAtom {
    fn clone(&self) -> (out: FurAtom)
        ensures
            out@ == self@,
    {
        FurAtom {
            system: self.system.clone(),
            convo_id: self.convo_id.clone(),
            message_id: self.message_id.clone(),
            order: self.order,
            source: self.source.clone(),
            content: self.content.clone(),
            sha256: self.sha256.clone(),
        }
    }
}

/// `serde_json`'s error, carried from the parser to where it is mapped.
#[verifier::external_type_specification]
#[verifier::external_body]
pub struct ExJsonError(serde_json::Error);

/// What a JSON record holds under one key, as far as resolution reads it.
#[derive(Debug)]
pub enum JsonField {
    /// The record is no object, or has no such key.
    Missing,
    /// A string.
    Text(String),
    /// An array; each item that is a string, and `None` for each that is not.
    List(Vec<Option<String>>),
    /// Any other value.
    Other,
}

/// `JsonField` with its texts as character sequences.
pub enum JsonFieldView {
    Missing,
    Text(Seq<char>),
    List(Seq<Option<Seq<char>>>),
    Other,
}

/// An optional string as an optional character sequence.
pub open spec fn opt_text(o: Option<String>) -> Option<Seq<char>> {
    match o {
        Some(s) => Some(s@),
        None => None,
    }
}

impl View for JsonField {
    type V = JsonFieldView;

    open spec fn view(&self) -> JsonFieldView {
        match self {
            JsonField::Missing => JsonFieldView::Missing,
            JsonField::Text(s) => JsonFieldView::Text(s@),
            JsonField::List(items) => JsonFieldView::List(
                items@.map_values(|o: Option<String>| opt_text(o)),
            ),
            JsonField::Other => JsonFieldView::Other,
        }
    }
}

/// What `serde_json` reads in the JSON text `json` under `key`: `None` when the
/// text is not valid JSON, else the field as `JsonFieldView` describes it.
pub uninterp spec fn json_field_of(json: Seq<char>, key: Seq<char>) -> Option<JsonFieldView>;

/// The outcome of reading a field, with the error forgotten.
pub open spec fn field_view(r: Result<JsonField, serde_json::Error>) -> Option<JsonFieldView> {
    match r {
        Ok(f) => Some(f@),
        Err(_) => None,
    }
}

/// Parses `json` with `serde_json::from_str` into a `serde_json::Value` and
/// looks `key` up with `Value::get`. Trusted: the result is the reading named
/// `json_field_of`, a function of the two texts alone; the parser's error is
/// handed on as it is.
#[verifier::external_body]
fn json_field(json: &str, key: &str) -> (r: Result<JsonField, serde_json::Error>)
    ensures
        field_view(r) == json_field_of(json@, key@),
{
    let doc: serde_json::Value = serde_json::from_str(json)?;
    Ok(match doc.get(key) {
        None => JsonField::Missing,
        Some(serde_json::Value::String(s)) => JsonField::Text(s.clone()),
        Some(serde_json::Value::Array(a)) => JsonField::List(
            a.iter().map(|v| v.as_str().map(|s| s.to_string())).collect(),
        ),
        Some(_) => JsonField::Other,
    })
}

fn read_field(json: &str, key: &str) -> (out: Option<JsonField>)
    ensures
        opt_field_view(out) == json_field_of(json@, key@),
{
    match json_field(json, key) {
        Ok(f) => Some(f),
        Err(_) => None,
    }
}

/// An optional field as its view.
pub open spec fn opt_field_view(o: Option<JsonField>) -> Option<JsonFieldView> {
    match o {
        Some(f) => Some(f@),
        None => None,
    }
}

/// Key of a thread record under which the message ids stand.
pub const KEY_MESSAGES: &'static str = "messages";

/// Key of a message record under which inline text stands.
pub const KEY_TEXT: &'static str = "text";

/// Key of a message record under which the path of a document stands.
pub const KEY_MARKDOWN: &'static str = "markdown";

/// Name of the record of conversation `convo_id` within the store.
pub open spec fn thread_record(convo_id: Seq<char>) -> Seq<char> {
    "threads/"@ + convo_id + ".json"@
}

/// Name of the record of message `message_id` within the store.
pub open spec fn message_record(message_id: Seq<char>) -> Seq<char> {
    "messages/"@ + message_id + ".json"@
}

/// Something the resolver needs read from the conversation store.
#[derive(Debug)]
pub enum StoreRequest {
    /// A thread record, by its name within the store.
    Thread(String),
    /// A message record, by its name within the store.
    Message(String),
    /// A document, by the path its message gives.
    Document(String),
}

/// `StoreRequest` with its texts as character sequences.
pub enum StoreRequestView {
    Thread(Seq<char>),
    Message(Seq<char>),
    Document(Seq<char>),
}

impl View for StoreRequest {
    type V = StoreRequestView;

    open spec fn view(&self) -> StoreRequestView {
        match self {
            StoreRequest::Thread(p) => StoreRequestView::Thread(p@),
            StoreRequest::Message(p) => StoreRequestView::Message(p@),
            StoreRequest::Document(p) => StoreRequestView::Document(p@),
        }
    }
}

/// What the store had for a request.
#[derive(Debug)]
pub enum StoreReply {
    /// Nothing is stored under that name.
    Missing,
    /// The text stored under that name.
    Content(String),
}

/// `StoreReply` with its text as a character sequence.
pub enum StoreReplyView {
    Missing,
    Content(Seq<char>),
}

impl View for StoreReply {
    type V = StoreReplyView;

    open spec fn view(&self) -> StoreReplyView {
        match self {
            StoreReply::Missing => StoreReplyView::Missing,
            StoreReply::Content(c) => StoreReplyView::Content(c@),
        }
    }
}

/// Where a resolution stands.
#[derive(Debug)]
pub enum ResolveStage {
    /// The thread record has been asked for.
    AwaitThread,
    /// The record of the message with this id has been asked for.
    AwaitMessage(String),
    /// The document of the message `message_id` has been asked for at `path`.
    AwaitDocument { message_id: String, path: String },
    /// Every message of the thread has become an atom.
    Finished,
    /// Resolution failed.
    Broken,
}

/// `ResolveStage` with its texts as character sequences.
pub enum ResolveStageView {
    AwaitThread,
    AwaitMessage(Seq<char>),
    AwaitDocument { message_id: Seq<char>, path: Seq<char> },
    Finished,
    Broken,
}

impl View for ResolveStage {
    type V = ResolveStageView;

    open spec fn view(&self) -> ResolveStageView {
        match self {
            ResolveStage::AwaitThread => ResolveStageView::AwaitThread,
            ResolveStage::AwaitMessage(id) => ResolveStageView::AwaitMessage(id@),
            ResolveStage::AwaitDocument { message_id, path } => ResolveStageView::AwaitDocument {
                message_id: message_id@,
                path: path@,
            },
            ResolveStage::Finished => ResolveStageView::Finished,
            ResolveStage::Broken => ResolveStageView::Broken,
        }
    }
}

/// What a step of resolution asks for or reports.
#[derive(Debug)]
pub enum Resolution {
    /// Read this and hand the reply to the next step.
    Need(StoreRequest),
    /// The conversation is resolved; its atoms are complete.
    Done,
    /// Resolution stopped.
    Failed(Failure),
}

/// `Resolution` with its texts as character sequences.
pub enum ResolutionView {
    Need(StoreRequestView),
    Done,
    Failed(FailureView),
}

impl View for Resolution {
    type V = ResolutionView;

    open spec fn view(&self) -> ResolutionView {
        match self {
            Resolution::Need(r) => ResolutionView::Need(r@),
            Resolution::Done => ResolutionView::Done,
            Resolution::Failed(e) => ResolutionView::Failed(e@),
        }
    }
}

/// The resolution of one conversation in progress: the thread's declared
/// message sequence and the atoms made so far, one per message, in that order.
#[derive(Debug)]
pub struct ThreadResolver {
    pub convo_id: String,
    /// The thread's entries in declared order; `None` where an entry is no string.
    pub entries: Vec<Option<String>>,
    pub atoms: Vec<FurAtom>,
    pub stage: ResolveStage,
}

/// `ThreadResolver` with its texts as character sequences.
pub struct ThreadResolverView {
    pub convo_id: Seq<char>,
    pub entries: Seq<Option<Seq<char>>>,
    pub atoms: Seq<FurAtomView>,
    pub stage: ResolveStageView,
}

impl View for ThreadResolver {
    type V = ThreadResolverView;

    open spec fn view(&self) -> ThreadResolverView {
        ThreadResolverView {
            convo_id: self.convo_id@,
            entries: self.entries@.map_values(|o: Option<String>| opt_text(o)),
            atoms: atom_views(self.atoms@),
            stage: self.stage@,
        }
    }
}

impl ThreadResolverView {
    /// The state in which resolution of `convo_id` starts.
    pub open spec fn initial(convo_id: Seq<char>) -> ThreadResolverView {
        ThreadResolverView {
            convo_id,
            entries: Seq::empty(),
            atoms: Seq::empty(),
            stage: ResolveStageView::AwaitThread,
        }
    }

    /// The state after a failure, and the failure.
    pub open spec fn broken(self, why: FailureView) -> (ThreadResolverView, ResolutionView) {
        (ThreadResolverView { stage: ResolveStageView::Broken, ..self }, ResolutionView::Failed(why))
    }

    /// Turns to the next entry of the thread: done when every entry has its
    /// atom, a failure when the next entry is no string, else a request for
    /// that message's record.
    pub open spec fn advance(self) -> (ThreadResolverView, ResolutionView) {
        if self.atoms.len() >= self.entries.len() {
            (ThreadResolverView { stage: ResolveStageView::Finished, ..self }, ResolutionView::Done)
        } else {
            match self.entries[self.atoms.len() as int] {
                None => self.broken(FailureView::Store("invalid message id"@)),
                Some(id) => (
                    ThreadResolverView { stage: ResolveStageView::AwaitMessage(id), ..self },
                    ResolutionView::Need(StoreRequestView::Message(message_record(id))),
                ),
            }
        }
    }

    /// The state with one more atom, made from the next message.
    pub open spec fn with_atom(
        self,
        message_id: Seq<char>,
        source: Seq<char>,
        content: Seq<char>,
    ) -> ThreadResolverView {
        ThreadResolverView {
            atoms: self.atoms.push(
                FurAtomView::sealed(
                    self.convo_id,
                    message_id,
                    self.atoms.len() as usize,
                    source,
                    content,
                ),
            ),
            ..self
        }
    }

    /// The step on the thread record's `messages` field as it was read.
    pub open spec fn on_thread(self, messages: Option<JsonFieldView>) -> (
        ThreadResolverView,
        ResolutionView,
    ) {
        match messages {
            None => self.broken(FailureView::Store("thread record is not valid JSON"@)),
            Some(JsonFieldView::List(items)) => (ThreadResolverView {
                entries: items,
                ..self
            }).advance(),
            Some(_) => self.broken(FailureView::Store("thread.messages must be array"@)),
        }
    }

    /// The step on a message record's `text` and `markdown` fields as they
    /// were read: exactly one of them must be a string.
    pub open spec fn on_message(
        self,
        message_id: Seq<char>,
        text: Option<JsonFieldView>,
        markdown: Option<JsonFieldView>,
    ) -> (ThreadResolverView, ResolutionView) {
        if text is None || markdown is None {
            self.broken(FailureView::Store("message record is not valid JSON"@))
        } else {
            match (text->0, markdown->0) {
                (JsonFieldView::Text(_), JsonFieldView::Text(_)) => self.broken(
                    FailureView::MalformedMessage(message_id),
                ),
                (JsonFieldView::Text(t), _) => self.with_atom(
                    message_id,
                    SOURCE_TEXT@,
                    t,
                ).advance(),
                (_, JsonFieldView::Text(path)) => (
                    ThreadResolverView {
                        stage: ResolveStageView::AwaitDocument { message_id, path },
                        ..self
                    },
                    ResolutionView::Need(StoreRequestView::Document(path)),
                ),
                _ => self.broken(FailureView::MalformedMessage(message_id)),
            }
        }
    }

    /// One step of resolution: the state and the store's reply to the pending
    /// request give the next state and what to do next.
    pub open spec fn step(self, reply: StoreReplyView) -> (ThreadResolverView, ResolutionView) {
        match self.stage {
            ResolveStageView::AwaitThread => match reply {
                StoreReplyView::Missing => self.broken(
                    FailureView::NotFound(thread_record(self.convo_id)),
                ),
                StoreReplyView::Content(json) => self.on_thread(
                    json_field_of(json, KEY_MESSAGES@),
                ),
            },
            ResolveStageView::AwaitMessage(id) => match reply {
                StoreReplyView::Missing => self.broken(FailureView::NotFound(message_record(id))),
                StoreReplyView::Content(json) => self.on_message(
                    id,
                    json_field_of(json, KEY_TEXT@),
                    json_field_of(json, KEY_MARKDOWN@),
                ),
            },
            ResolveStageView::AwaitDocument { message_id, path } => match reply {
                StoreReplyView::Missing => self.broken(FailureView::NotFound(path)),
                StoreReplyView::Content(content) => self.with_atom(
                    message_id,
                    SOURCE_MARKDOWN@,
                    content,
                ).advance(),
            },
            ResolveStageView::Finished => (self, ResolutionView::Failed(
                FailureView::UnexpectedEvent,
            )),
            ResolveStageView::Broken => (self, ResolutionView::Failed(
                FailureView::UnexpectedEvent,
            )),
        }
    }

    /// Each atom stands for the thread entry at its position, carries that
    /// position as its order, and carries the digest of its content.
    pub open spec fn ledger_ok(self) -> bool {
        &&& self.atoms.len() <= self.entries.len()
        &&& self.entries.len() <= usize::MAX
        &&& forall|i: int|
            0 <= i < self.atoms.len() ==> {
                let a = #[trigger] self.atoms[i];
                &&& a.system == FUR_SYSTEM@
                &&& a.convo_id == self.convo_id
                &&& self.entries[i] == Some(a.message_id)
                &&& a.order == i
                &&& (a.source == SOURCE_TEXT@ || a.source == SOURCE_MARKDOWN@)
                &&& a.hash_intact()
            }
    }

    /// Whether `message_id` is the thread entry that the next atom is to stand
    /// for.
    pub open spec fn is_next(self, message_id: Seq<char>) -> bool {
        self.atoms.len() < self.entries.len() && self.entries[self.atoms.len() as int] == Some(
            message_id,
        )
    }

    /// What every state reached from the initial one satisfies: the ledger is
    /// in order, and a pending message is the next entry.
    pub open spec fn well_formed(self) -> bool {
        &&& self.ledger_ok()
        &&& match self.stage {
            ResolveStageView::AwaitThread => self.atoms.len() == 0 && self.entries.len() == 0,
            ResolveStageView::AwaitMessage(id) => self.is_next(id),
            ResolveStageView::AwaitDocument { message_id, path } => self.is_next(message_id),
            ResolveStageView::Finished => self.atoms.len() == self.entries.len(),
            ResolveStageView::Broken => true,
        }
    }
}

fn thread_record_name(convo_id: &str) -> (out: String)
    ensures
        out@ == thread_record(convo_id@),
{
    String::from_str("threads/").concat(convo_id).concat(".json")
}

fn message_record_name(message_id: &str) -> (out: String)
    ensures
        out@ == message_record(message_id@),
{
    String::from_str("messages/").concat(message_id).concat(".json")
}

/// Starts the resolution of conversation `convo_id`: the resolver in its
/// initial state, and the request for the thread record.
pub fn load_fur_thread(convo_id: &str) -> (out: (ThreadResolver, StoreRequest))
    ensures
        out.0@ == ThreadResolverView::initial(convo_id@),
        out.0@.well_formed(),
        out.1@ == StoreRequestView::Thread(thread_record(convo_id@)),
{
    let resolver = ThreadResolver {
        convo_id: String::from_str(convo_id),
        entries: Vec::new(),
        atoms: Vec::new(),
        stage: ResolveStage::AwaitThread,
    };
    assert(resolver@.entries =~= Seq::empty());
    assert(resolver@.atoms =~= Seq::empty());
    (resolver, StoreRequest::Thread(thread_record_name(convo_id)))
}

impl ThreadResolver {
    fn fail(&mut self, why: Failure) -> (out: Resolution)
        ensures
            (final(self)@, out@) == old(self)@.broken(why@),
    {
        self.stage = ResolveStage::Broken;
        Resolution::Failed(why)
    }

    fn next_entry(&mut self) -> (out: Resolution)
        ensures
            (final(self)@, out@) == old(self)@.advance(),
            old(self)@.ledger_ok() ==> final(self)@.well_formed(),
    {
        if self.atoms.len() >= self.entries.len() {
            self.stage = ResolveStage::Finished;
            Resolution::Done
        } else {
            let i = self.atoms.len();
            assert(self@.entries[i as int] == opt_text(self.entries@[i as int]));
            match &self.entries[i] {
                None => {
                    self.stage = ResolveStage::Broken;
                    Resolution::Failed(Failure::Store(String::from_str("invalid message id")))
                },
                Some(id) => {
                    let id = id.clone();
                    let name = message_record_name(id.as_str());
                    self.stage = ResolveStage::AwaitMessage(id);
                    Resolution::Need(StoreRequest::Message(name))
                },
            }
        }
    }

    fn push_atom(&mut self, message_id: String, source: &str, content: String)
        ensures
            final(self)@ == old(self)@.with_atom(message_id@, source@, content@),
            old(self)@.ledger_ok() && old(self)@.is_next(message_id@) && (source@ == SOURCE_TEXT@
                || source@ == SOURCE_MARKDOWN@) ==> final(self)@.ledger_ok(),
    {
        let atom = FurAtom::seal(
            self.convo_id.as_str(),
            message_id,
            self.atoms.len(),
            source,
            content,
        );
        let ghost before = self@.atoms;
        self.atoms.push(atom);
        assert(self@.atoms =~= before.push(atom@));
    }

    /// The step on the `messages` field of the thread record, as read from it
    /// (`None` where the record was no valid JSON).
    pub fn accept_thread(&mut self, messages: Option<JsonField>) -> (out: Resolution)
        ensures
            (final(self)@, out@) == old(self)@.on_thread(opt_field_view(messages)),
            old(self)@.ledger_ok() && old(self)@.atoms.len() == 0 ==> final(self)@.well_formed(),
    {
        match messages {
            None => self.fail(Failure::Store(String::from_str("thread record is not valid JSON"))),
            Some(JsonField::List(items)) => {
                self.entries = items;
                assert(self@.entries.len() == self.entries.len() <= usize::MAX);
                assert(self@.atoms == old(self)@.atoms);
                self.next_entry()
            },
            Some(_) => self.fail(Failure::Store(String::from_str("thread.messages must be array"))),
        }
    }

    /// The step on the `text` and `markdown` fields of the record of message
    /// `message_id`, as read from it (`None` where the record was no valid
    /// JSON).
    pub fn accept_message(
        &mut self,
        message_id: String,
        text: Option<JsonField>,
        markdown: Option<JsonField>,
    ) -> (out: Resolution)
        ensures
            (final(self)@, out@) == old(self)@.on_message(
                message_id@,
                opt_field_view(text),
                opt_field_view(markdown),
            ),
            old(self)@.ledger_ok() && old(self)@.is_next(message_id@)
                ==> final(self)@.well_formed(),
    {
        match (text, markdown) {
            (Some(t), Some(m)) => match (t, m) {
                (JsonField::Text(_), JsonField::Text(_)) => self.fail(
                    Failure::MalformedMessage(message_id),
                ),
                (JsonField::Text(t), _) => {
                    self.push_atom(message_id, SOURCE_TEXT, t);
                    self.next_entry()
                },
                (_, JsonField::Text(path)) => {
                    let request = StoreRequest::Document(path.clone());
                    self.stage = ResolveStage::AwaitDocument { message_id, path };
                    Resolution::Need(request)
                },
                _ => self.fail(Failure::MalformedMessage(message_id)),
            },
            _ => self.fail(Failure::Store(String::from_str("message record is not valid JSON"))),
        }
    }

    /// One step of resolution: takes the store's reply to the pending request
    /// and says what to do next.
    pub fn feed(&mut self, reply: StoreReply) -> (out: Resolution)
        ensures
            (final(self)@, out@) == old(self)@.step(reply@),
            old(self)@.well_formed() ==> final(self)@.well_formed(),
    {
        let ghost before = self@;
        let mut stage = ResolveStage::Broken;
        std::mem::swap(&mut self.stage, &mut stage);
        match stage {
            ResolveStage::AwaitThread => match reply {
                StoreReply::Missing => {
                    let name = thread_record_name(self.convo_id.as_str());
                    self.fail(Failure::NotFound(name))
                },
                StoreReply::Content(json) => {
                    let messages = read_field(json.as_str(), KEY_MESSAGES);
                    self.accept_thread(messages)
                },
            },
            ResolveStage::AwaitMessage(id) => match reply {
                StoreReply::Missing => {
                    let name = message_record_name(id.as_str());
                    self.fail(Failure::NotFound(name))
                },
                StoreReply::Content(json) => {
                    let text = read_field(json.as_str(), KEY_TEXT);
                    let markdown = read_field(json.as_str(), KEY_MARKDOWN);
                    self.accept_message(id, text, markdown)
                },
            },
            ResolveStage::AwaitDocument { message_id, path } => match reply {
                StoreReply::Missing => self.fail(Failure::NotFound(path)),
                StoreReply::Content(content) => {
                    self.push_atom(message_id, SOURCE_MARKDOWN, content);
                    self.next_entry()
                },
            },
            ResolveStage::Finished => {
                self.stage = ResolveStage::Finished;
                Resolution::Failed(Failure::UnexpectedEvent)
            },
            ResolveStage::Broken => Resolution::Failed(Failure::UnexpectedEvent),
        }
    }
}

/// Whether no message id stands twice among the thread's entries.
pub open spec fn entries_distinct(entries: Seq<Option<Seq<char>>>) -> bool {
    forall|i: int, j: int|
        0 <= i < j < entries.len() && entries[i] is Some ==> entries[i] != entries[j]
}

/// The orders of a resolution's atoms count up from zero without a gap, each
/// atom stands for the thread's entry at its position, and where the thread
/// names no message twice, no two atoms share a message id.
pub proof fn lemma_resolved_atoms_ordered_and_unique(s: ThreadResolverView)
    requires
        s.well_formed(),
    ensures
        forall|i: int| 0 <= i < s.atoms.len() ==> (#[trigger] s.atoms[i]).order == i,
        forall|i: int|
            0 <= i < s.atoms.len() ==> s.entries[i] == Some((#[trigger] s.atoms[i]).message_id),
        entries_distinct(s.entries) ==> message_ids(s.atoms).no_duplicates(),
{
    if entries_distinct(s.entries) {
        let ids = message_ids(s.atoms);
        assert forall|i: int, j: int| 0 <= i < ids.len() && 0 <= j < ids.len() && i != j implies ids[i]
            != ids[j] by {
            assert(s.entries[i] == Some(s.atoms[i].message_id));
            assert(s.entries[j] == Some(s.atoms[j].message_id));
            if i < j {
                assert(s.entries[i] != s.entries[j]);
            } else {
                assert(s.entries[j] != s.entries[i]);
            }
        }
    }
}

/// Every atom of a resolution carries the digest of its own content, names
/// the conversation it was resolved from, and is of one of the two source
/// kinds.
pub proof fn lemma_resolved_atoms_intact(s: ThreadResolverView)
    requires
        s.well_formed(),
    ensures
        forall|i: int|
            0 <= i < s.atoms.len() ==> {
                let a = #[trigger] s.atoms[i];
                &&& a.sha256 == sha256_hex(a.content)
                &&& a.convo_id == s.convo_id
                &&& a.system == FUR_SYSTEM@
                &&& (a.source == SOURCE_TEXT@ || a.source == SOURCE_MARKDOWN@)
            },
{
}

} // verus!
