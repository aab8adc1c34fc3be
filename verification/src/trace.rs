//! The trace: its status state machine, its metadata and its file layout.

use vstd::prelude::*;
use vstd::string::*;
use std::time::{Duration, SystemTimeError};
use crate::execute::{used_views, UsedAtom, UsedAtomView};
use crate::failure::{Failure, FailureView};
use crate::text::{decimal, lemma_decimal_injective, render_decimal};

verus! {

/// Version string written into every trace's metadata.
pub const RATATOSKR_VERSION: &'static str = "0.2.0-dev";

/// Lifecycle state of a trace. `Initialized` is the only state that can be
/// left; `Executed` and `Failed` are terminal.
#[derive(Clone, Copy, Debug, PartialEq, Eq, Structural)]
pub enum TraceStatus {
    Initialized,
    Executed,
    Failed,
}

impl TraceStatus {
    /// Whether no transition leaves this state.
    pub open spec fn is_terminal(self) -> bool {
        self != TraceStatus::Initialized
    }

    /// The state's name as written in diagnostics.
    pub open spec fn spec_label(self) -> Seq<char> {
        match self {
            TraceStatus::Initialized => "Initialized"@,
            TraceStatus::Executed => "Executed"@,
            TraceStatus::Failed => "Failed"@,
        }
    }

    /// The state's name as written in diagnostics.
    pub fn label(&self) -> (out: String)
        ensures
            out@ == self.spec_label(),
    {
        match self {
            TraceStatus::Initialized => String::from_str("Initialized"),
            TraceStatus::Executed => String::from_str("Executed"),
            TraceStatus::Failed => String::from_str("Failed"),
        }
    }
}

/// The state machine's edges: a trace may move from `Initialized` to either
/// terminal state, and nowhere else.
pub open spec fn transition_allowed(from: TraceStatus, to: TraceStatus) -> bool {
    from == TraceStatus::Initialized && to.is_terminal()
}

/// Accepts exactly the edges of the state machine; every other pair is
/// reported as an illegal transition naming both ends.
pub fn validate_transition(from: &TraceStatus, to: &TraceStatus) -> (r: Result<(), Failure>)
    ensures
        r is Ok <==> transition_allowed(*from, *to),
        r matches Err(e) ==> e@ == (FailureView::IllegalTransition { from: *from, to: *to }),
{
    match (from, to) {
        (TraceStatus::Initialized, TraceStatus::Executed) => Ok(()),
        (TraceStatus::Initialized, TraceStatus::Failed) => Ok(()),
        _ => Err(Failure::IllegalTransition { from: *from, to: *to }),
    }
}

/// What `metadata.yaml` holds.
#[derive(Debug)]
pub struct TraceMetadata {
    pub trace_id: String,
    pub timestamp_unix: u64,
    pub ratatoskr_version: String,
    pub status: TraceStatus,
}

/// `TraceMetadata` with its texts as character sequences.
pub struct TraceMetadataView {
    pub trace_id: Seq<char>,
    pub timestamp_unix: u64,
    pub ratatoskr_version: Seq<char>,
    pub status: TraceStatus,
}

impl View for TraceMetadata {
    type V = TraceMetadataView;

    open spec fn view(&self) -> TraceMetadataView {
        TraceMetadataView {
            trace_id: self.trace_id@,
            timestamp_unix: self.timestamp_unix,
            ratatoskr_version: self.ratatoskr_version@,
            status: self.status,
        }
    }
}

/// Applies a status change to loaded metadata. On an edge of the state machine
/// the result is the same metadata with the new status; on any other request
/// it is an illegal-transition failure and `meta` is left as it was.
pub fn update_trace_status(meta: &mut TraceMetadata, new_status: TraceStatus) -> (r: Result<
    (),
    Failure,
>)
    ensures
        r is Ok <==> transition_allowed(old(meta).status, new_status),
        r is Ok ==> final(meta)@ == (TraceMetadataView { status: new_status, ..old(meta)@ }),
        r matches Err(e) ==> final(meta)@ == old(meta)@ && e@ == (FailureView::IllegalTransition {
            from: old(meta).status,
            to: new_status,
        }),
{
    match validate_transition(&meta.status, &new_status) {
        Ok(()) => {
            meta.status = new_status;
            Ok(())
        },
        Err(e) => Err(e),
    }
}

/// Name of the metadata artifact.
pub const METADATA_FILE: &'static str = "metadata.yaml";

/// Name of the artifact that holds the frozen task.
pub const INPUT_FILE: &'static str = "input.yaml";

/// Name of the artifact that holds the resolved atoms.
pub const MATERIALS_FILE: &'static str = "materials.yaml";

/// Name of the artifact that holds the assembled prompt.
pub const PROMPT_FILE: &'static str = "prompt.txt";

/// Name of the artifact that holds the raw response.
pub const RESPONSE_FILE: &'static str = "response.txt";

/// Name of the markdown copy of the response.
pub const RESPONSE_MD_FILE: &'static str = "response.md";

/// Name of the artifact that holds the engine's description.
pub const ENGINE_FILE: &'static str = "engine.yaml";

/// Name of the artifact that holds the ledger of cited atoms.
pub const USAGE_FILE: &'static str = "usage.yaml";

/// Name of the artifact that holds the diagnostic of a grounding violation.
pub const VIOLATION_FILE: &'static str = "violation.txt";

/// Name of the artifact reserved for changes to memory.
pub const MEMORY_DELTA_FILE: &'static str = "memory_delta.yaml";

/// Name of the directory for supplementary context.
pub const CONTEXT_DIR: &'static str = "resolved_context";

/// What a seeded artifact holds until its stage writes it.
pub const PLACEHOLDER: &'static str = "# placeholder\n";

/// One effect on a trace's directory. Effects are carried out in the order in
/// which they are listed, each completed before the next.
#[derive(Debug)]
pub enum Write {
    /// Create the trace's own directory.
    CreateTrace,
    /// Create a directory inside the trace.
    Dir(String),
    /// Write a text artifact, replacing what was there.
    Text { name: String, content: String },
    /// Write the metadata artifact.
    Metadata(TraceMetadata),
    /// Write the frozen task to its artifact.
    Input,
    /// Write the resolved atoms to their artifact.
    Materials,
    /// Write the ledger of cited atoms to its artifact.
    Usage(Vec<UsedAtom>),
    /// Persist a status change through the state machine.
    Status(TraceStatus),
}

/// `Write` with its texts as character sequences.
pub enum WriteView {
    CreateTrace,
    Dir(Seq<char>),
    Text { name: Seq<char>, content: Seq<char> },
    Metadata(TraceMetadataView),
    Input,
    Materials,
    Usage(Seq<UsedAtomView>),
    Status(TraceStatus),
}

impl View for Write {
    type V = WriteView;

    open spec fn view(&self) -> WriteView {
        match self {
            Write::CreateTrace => WriteView::CreateTrace,
            Write::Dir(name) => WriteView::Dir(name@),
            Write::Text { name, content } => WriteView::Text { name: name@, content: content@ },
            Write::Metadata(m) => WriteView::Metadata(m@),
            Write::Input => WriteView::Input,
            Write::Materials => WriteView::Materials,
            Write::Usage(rows) => WriteView::Usage(used_views(rows@)),
            Write::Status(s) => WriteView::Status(*s),
        }
    }
}

/// The views of a run of writes, in the same order.
pub open spec fn write_views(writes: Seq<Write>) -> Seq<WriteView> {
    writes.map_values(|w: Write| w@)
}

/// A text artifact seeded with the placeholder.
pub open spec fn placeholder(name: Seq<char>) -> WriteView {
    WriteView::Text { name, content: PLACEHOLDER@ }
}

/// The metadata of a trace that has just been created.
pub open spec fn initial_metadata(trace_id: Seq<char>, timestamp_unix: u64) -> TraceMetadataView {
    TraceMetadataView {
        trace_id,
        timestamp_unix,
        ratatoskr_version: RATATOSKR_VERSION@,
        status: TraceStatus::Initialized,
    }
}

/// The fixed layout a trace starts with: the context directory, the seeded
/// artifacts, and the metadata with status `Initialized`.
pub open spec fn initial_layout(trace_id: Seq<char>, timestamp_unix: u64) -> Seq<WriteView> {
    seq![
        WriteView::Dir(CONTEXT_DIR@),
        placeholder(PROMPT_FILE@),
        placeholder(RESPONSE_FILE@),
        placeholder(MEMORY_DELTA_FILE@),
        placeholder(ENGINE_FILE@),
        WriteView::Metadata(initial_metadata(trace_id, timestamp_unix)),
    ]
}

/// A write of `content` to the text artifact `name`.
pub fn text_write(name: &str, content: &str) -> (w: Write)
    ensures
        w@ == (WriteView::Text { name: name@, content: content@ }),
{
    Write::Text { name: String::from_str(name), content: String::from_str(content) }
}

/// The writes that scaffold a new trace's layout, appended to `writes`.
pub fn initialize_trace_layout(writes: &mut Vec<Write>, trace_id: &str, timestamp_unix: u64)
    ensures
        write_views(final(writes)@) == write_views(old(writes)@) + initial_layout(
            trace_id@,
            timestamp_unix,
        ),
{
    let ghost before = write_views(writes@);
    writes.push(Write::Dir(String::from_str(CONTEXT_DIR)));
    writes.push(text_write(PROMPT_FILE, PLACEHOLDER));
    writes.push(text_write(RESPONSE_FILE, PLACEHOLDER));
    writes.push(text_write(MEMORY_DELTA_FILE, PLACEHOLDER));
    writes.push(text_write(ENGINE_FILE, PLACEHOLDER));
    writes.push(
        Write::Metadata(
            TraceMetadata {
                trace_id: String::from_str(trace_id),
                timestamp_unix,
                ratatoskr_version: String::from_str(RATATOSKR_VERSION),
                status: TraceStatus::Initialized,
            },
        ),
    );
    assert(write_views(writes@) =~= before + initial_layout(trace_id@, timestamp_unix));
}

/// The error of `std::time::SystemTime::elapsed`, carried to where it is mapped.
#[verifier::external_type_specification]
#[verifier::external_body]
pub struct ExSystemTimeError(SystemTimeError);

/// Calls `std::time::SystemTime::elapsed` on `UNIX_EPOCH`: the time since the
/// epoch by the system clock, or the clock's error. Nothing is claimed of the
/// result.
#[verifier::external_body]
fn since_epoch() -> Result<Duration, SystemTimeError> {
    std::time::UNIX_EPOCH.elapsed()
}

/// `std::time::Duration::as_secs`: the whole seconds of a duration. Nothing is
/// claimed of the result.
pub assume_specification[ Duration::as_secs ](d: &Duration) -> u64;

/// The failure reported when the system clock cannot be read.
pub open spec fn clock_failure() -> FailureView {
    FailureView::Config("system time error"@)
}

/// The system clock's time in whole seconds since the epoch.
pub fn now_unix() -> (r: Result<u64, Failure>)
    ensures
        r matches Err(e) ==> e@ == clock_failure(),
{
    unix_seconds(since_epoch())
}

/// Reads the clock's answer: the whole seconds of the time elapsed since the
/// epoch where the clock gave one, and the clock failure where it gave its
/// error.
pub fn unix_seconds(elapsed: Result<Duration, SystemTimeError>) -> (r: Result<u64, Failure>)
    ensures
        r is Ok <==> elapsed is Ok,
        r matches Err(e) ==> e@ == clock_failure(),
{
    match elapsed {
        Ok(d) => Ok(d.as_secs()),
        Err(_) => Err(Failure::Config(String::from_str("system time error"))),
    }
}

/// The id of a trace created at `timestamp_unix`: the timestamp in decimal.
pub fn trace_id_at(timestamp_unix: u64) -> (id: String)
    ensures
        id@ == decimal(timestamp_unix as nat),
{
    render_decimal(timestamp_unix)
}

/// A fresh trace id, derived from the system clock: the decimal numeral of
/// the current time in seconds. Two calls within one second give the same id.
pub fn generate_trace_id() -> (r: Result<String, Failure>)
    ensures
        r matches Ok(id) ==> exists|t: u64| id@ == decimal(t as nat),
        r matches Err(e) ==> e@ == clock_failure(),
{
    match now_unix() {
        Ok(t) => {
            let id = trace_id_at(t);
            assert(id@ == decimal(t as nat));
            Ok(id)
        },
        Err(e) => Err(e),
    }
}

/// The state machine has exactly two edges: from `Initialized` to `Executed`
/// and from `Initialized` to `Failed`. Nothing leaves a terminal state, and
/// nothing leads to `Initialized`.
pub proof fn lemma_transition_table()
    ensures
        transition_allowed(TraceStatus::Initialized, TraceStatus::Executed),
        transition_allowed(TraceStatus::Initialized, TraceStatus::Failed),
        forall|from: TraceStatus, to: TraceStatus| #[trigger]
            transition_allowed(from, to) ==> from == TraceStatus::Initialized && (to
                == TraceStatus::Executed || to == TraceStatus::Failed),
        forall|from: TraceStatus, to: TraceStatus|
            from.is_terminal() ==> !#[trigger] transition_allowed(from, to),
{
}

/// Traces created at different seconds have different ids: an id collides
/// only with a trace created within the same second.
pub proof fn lemma_trace_ids_differ(first: u64, second: u64)
    requires
        first != second,
    ensures
        decimal(first as nat) != decimal(second as nat),
{
    if decimal(first as nat) == decimal(second as nat) {
        lemma_decimal_injective(first as nat, second as nat);
    }
}

} // verus!
