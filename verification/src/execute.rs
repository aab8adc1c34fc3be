//! The executor: prompt assembly, the usage ledger, and the step function that
//! carries one task from a fresh trace to a terminal status.

use vstd::prelude::*;
use vstd::string::*;
use crate::citation::{extract_fur_citations, extracted};
use crate::engine::{select_engine, selected_engine, EngineChoice, EngineChoiceView};
use crate::failure::{response_view, Failure, FailureView};
use crate::fur_atom::{
    atom_views,
    load_fur_thread,
    message_ids,
    thread_record,
    ATOM_HEADER,
    FurAtom,
    FurAtomView,
    Resolution,
    ResolutionView,
    StoreReply,
    StoreReplyView,
    StoreRequest,
    StoreRequestView,
    ThreadResolver,
    ThreadResolverView,
};
use crate::task::{Task, TaskView};
use crate::text::{contains_text, decimal, texts};
use crate::trace::{
    transition_allowed,
    initial_layout,
    initialize_trace_layout,
    text_write,
    trace_id_at,
    write_views,
    TraceStatus,
    Write,
    WriteView,
    ENGINE_FILE,
    PROMPT_FILE,
    RESPONSE_FILE,
    RESPONSE_MD_FILE,
    VIOLATION_FILE,
};
use crate::validate::{
    lemma_validation_failures,
    lemma_validated_iff_grounded,
    validate_citations,
    validated,
};

verus! {

/// The grounding rule, stated to the engine before any material.
pub const PREAMBLE: &'static str =
    "SYSTEM:\nYou may ONLY use the following material atoms.\nCite atoms as [FUR:<message_id>].\n\n";

/// The block that shows one atom to the engine: a header with the message id
/// and the digest, then the content.
pub open spec fn atom_block(a: FurAtomView) -> Seq<char> {
    ATOM_HEADER@ + a.message_id + ":"@ + a.sha256 + " ===\n"@ + a.content + "\n\n"@
}

/// The blocks of a run of atoms, in order.
pub open spec fn atom_blocks(atoms: Seq<FurAtomView>) -> Seq<char>
    decreases atoms.len(),
{
    if atoms.len() == 0 {
        Seq::empty()
    } else {
        atom_blocks(atoms.drop_last()) + atom_block(atoms.last())
    }
}

/// The task section: task type, memory scope, and the task's own prompt.
pub open spec fn task_section(task: TaskView) -> Seq<char> {
    "TASK TYPE: "@ + task.task_type + "\nMEMORY SCOPE: "@ + task.memory_scope + "\n\n"@
        + task.prompt
}

/// The supplementary context chunks, each under its delimiter, in order.
pub open spec fn context_blocks(chunks: Seq<Seq<char>>) -> Seq<char>
    decreases chunks.len(),
{
    if chunks.len() == 0 {
        Seq::empty()
    } else {
        context_blocks(chunks.drop_last()) + "\n\n--- CONTEXT ---\n"@ + chunks.last()
    }
}

/// The whole prompt: preamble, atom blocks, task section, context chunks.
pub open spec fn full_prompt(
    task: TaskView,
    atoms: Seq<FurAtomView>,
    chunks: Seq<Seq<char>>,
) -> Seq<char> {
    PREAMBLE@ + atom_blocks(atoms) + "\n=== TASK ===\n"@ + task_section(task) + context_blocks(
        chunks,
    )
}

/// Renders the task section of the prompt.
pub fn assemble_prompt(task: &Task) -> (out: String)
    ensures
        out@ == task_section(task@),
{
    String::from_str("TASK TYPE: ").concat(task.task_type.as_str()).concat(
        "\nMEMORY SCOPE: ",
    ).concat(task.memory_scope.as_str()).concat("\n\n").concat(task.prompt.as_str())
}

/// Renders the whole prompt for a task, its atoms and its context chunks. The
/// text depends on nothing but the contents of the three.
pub fn build_prompt(task: &Task, atoms: &[FurAtom], chunks: &[String]) -> (out: String)
    ensures
        out@ == full_prompt(task@, atom_views(atoms@), texts(chunks@)),
{
    let ghost av = atom_views(atoms@);
    let ghost cv = texts(chunks@);
    let mut out = String::from_str(PREAMBLE);
    let mut i: usize = 0;
    assert(av.take(0) =~= Seq::<FurAtomView>::empty());
    assert(out@ =~= PREAMBLE@ + atom_blocks(av.take(0)));
    while i < atoms.len()
        invariant
            i <= atoms.len(),
            av == atom_views(atoms@),
            out@ == PREAMBLE@ + atom_blocks(av.take(i as int)),
        decreases atoms.len() - i,
    {
        let atom = &atoms[i];
        let ghost before = out@;
        out.append(ATOM_HEADER);
        out.append(atom.message_id.as_str());
        out.append(":");
        out.append(atom.sha256.as_str());
        out.append(" ===\n");
        out.append(atom.content.as_str());
        out.append("\n\n");
        proof {
            assert(av.take(i + 1).drop_last() =~= av.take(i as int));
            assert(av.take(i + 1).last() == atom@);
            assert(out@ =~= before + atom_block(atom@));
            assert(out@ =~= PREAMBLE@ + atom_blocks(av.take(i + 1)));
        }
        i += 1;
    }
    assert(av.take(i as int) =~= av);
    out.append("\n=== TASK ===\n");
    out.append(assemble_prompt(task).as_str());
    let ghost head = out@;
    let mut j: usize = 0;
    assert(cv.take(0) =~= Seq::<Seq<char>>::empty());
    assert(out@ =~= head + context_blocks(cv.take(0)));
    while j < chunks.len()
        invariant
            j <= chunks.len(),
            cv == texts(chunks@),
            out@ == head + context_blocks(cv.take(j as int)),
        decreases chunks.len() - j,
    {
        let ghost before = out@;
        out.append("\n\n--- CONTEXT ---\n");
        out.append(chunks[j].as_str());
        proof {
            assert(cv.take(j + 1).drop_last() =~= cv.take(j as int));
            assert(cv.take(j + 1).last() == chunks@[j as int]@);
            assert(out@ =~= head + context_blocks(cv.take(j + 1)));
        }
        j += 1;
    }
    assert(cv.take(j as int) =~= cv);
    assert(out@ =~= full_prompt(task@, av, cv));
    out
}

/// A row of the usage ledger: an atom that the response cited.
#[derive(Debug)]
pub struct UsedAtom {
    pub convo_id: String,
    pub message_id: String,
    pub sha256: String,
    pub order: usize,
}

/// `UsedAtom` with its texts as character sequences.
pub struct UsedAtomView {
    pub convo_id: Seq<char>,
    pub message_id: Seq<char>,
    pub sha256: Seq<char>,
    pub order: usize,
}

impl View for UsedAtom {
    type V = UsedAtomView;

    open spec fn view(&self) -> UsedAtomView {
        UsedAtomView {
            convo_id: self.convo_id@,
            message_id: self.message_id@,
            sha256: self.sha256@,
            order: self.order,
        }
    }
}

/// The views of a run of ledger rows, in the same order.
pub open spec fn used_views(rows: Seq<UsedAtom>) -> Seq<UsedAtomView> {
    rows.map_values(|r: UsedAtom| r@)
}

/// The ledger row of an atom.
pub open spec fn used_row(a: FurAtomView) -> UsedAtomView {
    UsedAtomView {
        convo_id: a.convo_id,
        message_id: a.message_id,
        sha256: a.sha256,
        order: a.order,
    }
}

/// The usage ledger: a row for every atom whose message id is cited, in the
/// order of the atoms.
pub open spec fn usage_ledger(atoms: Seq<FurAtomView>, citations: Seq<Seq<char>>) -> Seq<
    UsedAtomView,
>
    decreases atoms.len(),
{
    if atoms.len() == 0 {
        Seq::empty()
    } else {
        let before = usage_ledger(atoms.drop_last(), citations);
        if citations.contains(atoms.last().message_id) {
            before.push(used_row(atoms.last()))
        } else {
            before
        }
    }
}

/// Builds the usage ledger of `atoms` for the citations of a response.
pub fn used_atoms(atoms: &[FurAtom], citations: &[String]) -> (out: Vec<UsedAtom>)
    ensures
        used_views(out@) == usage_ledger(atom_views(atoms@), texts(citations@)),
{
    let ghost av = atom_views(atoms@);
    let ghost cv = texts(citations@);
    let mut out: Vec<UsedAtom> = Vec::new();
    let mut i: usize = 0;
    assert(av.take(0) =~= Seq::<FurAtomView>::empty());
    assert(used_views(out@) =~= usage_ledger(av.take(0), cv));
    while i < atoms.len()
        invariant
            i <= atoms.len(),
            av == atom_views(atoms@),
            cv == texts(citations@),
            used_views(out@) == usage_ledger(av.take(i as int), cv),
        decreases atoms.len() - i,
    {
        let atom = &atoms[i];
        let ghost before = used_views(out@);
        assert(av.take(i + 1).drop_last() =~= av.take(i as int));
        assert(av.take(i + 1).last() == atom@);
        if contains_text(citations, atom.message_id.as_str()) {
            out.push(
                UsedAtom {
                    convo_id: atom.convo_id.clone(),
                    message_id: atom.message_id.clone(),
                    sha256: atom.sha256.clone(),
                    order: atom.order,
                },
            );
            assert(used_views(out@) =~= before.push(used_row(atom@)));
        }
        i += 1;
    }
    assert(av.take(i as int) =~= av);
    out
}

/// What the executor is handed in answer to its last request.
#[derive(Debug)]
pub enum Event {
    /// Whether a trace with the requested id is already there.
    Probed { exists: bool },
    /// The conversation store's reply.
    Store(StoreReply),
    /// The supplementary context chunks, in order.
    Context(Vec<String>),
    /// The engine's response, or its failure.
    Engine(Result<String, Failure>),
}

/// `Event` with its texts as character sequences.
pub enum EventView {
    Probed { exists: bool },
    Store(StoreReplyView),
    Context(Seq<Seq<char>>),
    Engine(Result<Seq<char>, FailureView>),
}

impl View for Event {
    type V = EventView;

    open spec fn view(&self) -> EventView {
        match self {
            Event::Probed { exists } => EventView::Probed { exists: *exists },
            Event::Store(r) => EventView::Store(r@),
            Event::Context(chunks) => EventView::Context(texts(chunks@)),
            Event::Engine(r) => EventView::Engine(
                match r {
                    Ok(s) => Ok(s@),
                    Err(e) => Err(e@),
                },
            ),
        }
    }
}

/// What the executor asks for next.
#[derive(Debug)]
pub enum Next {
    /// Say whether a trace with this id is already there.
    Probe(String),
    /// Read this from the conversation store.
    Fetch(StoreRequest),
    /// Resolve the task's context references into chunks.
    Context,
    /// Run this engine on this prompt.
    Engine { choice: EngineChoice, prompt: String },
    /// The execution is over: the name of the final response artifact, or the
    /// failure to surface.
    Finish(Result<String, Failure>),
}

/// `Next` with its texts as character sequences.
pub enum NextView {
    Probe(Seq<char>),
    Fetch(StoreRequestView),
    Context,
    Engine { choice: EngineChoiceView, prompt: Seq<char> },
    Finish(Result<Seq<char>, FailureView>),
}

impl View for Next {
    type V = NextView;

    open spec fn view(&self) -> NextView {
        match self {
            Next::Probe(id) => NextView::Probe(id@),
            Next::Fetch(r) => NextView::Fetch(r@),
            Next::Context => NextView::Context,
            Next::Engine { choice, prompt } => NextView::Engine {
                choice: choice@,
                prompt: prompt@,
            },
            Next::Finish(r) => NextView::Finish(
                match r {
                    Ok(s) => Ok(s@),
                    Err(e) => Err(e@),
                },
            ),
        }
    }
}

/// One step's output: the writes to carry out, in order, and then the request.
#[derive(Debug)]
pub struct Step {
    pub writes: Vec<Write>,
    pub next: Next,
}

/// `Step` with its texts as character sequences.
pub struct StepView {
    pub writes: Seq<WriteView>,
    pub next: NextView,
}

impl View for Step {
    type V = StepView;

    open spec fn view(&self) -> StepView {
        StepView { writes: write_views(self.writes@), next: self.next@ }
    }
}

/// Where an execution stands.
#[derive(Clone, Copy, Debug, PartialEq, Eq, Structural)]
pub enum Stage {
    /// Asked whether the trace id is taken.
    AwaitProbe,
    /// Asked the conversation store for a record.
    Resolving,
    /// Asked for the context chunks.
    AwaitContext,
    /// Asked the engine for a response.
    AwaitEngine,
    /// Over.
    Closed,
}

/// One execution of one task.
#[derive(Debug)]
pub struct Execution {
    pub task: Task,
    pub trace_id: String,
    pub timestamp_unix: u64,
    pub stage: Stage,
    /// The trace's persisted status; `None` while there is no trace.
    pub status: Option<TraceStatus>,
    /// Index of the memory reference being resolved.
    pub ref_index: usize,
    /// The resolution of that reference.
    pub resolver: ThreadResolver,
    /// The atoms of the references resolved so far, in reference order.
    pub atoms: Vec<FurAtom>,
    /// The selected engine's description of itself.
    pub engine_note: String,
}

/// `Execution` with its texts as character sequences.
pub struct ExecutionView {
    pub task: TaskView,
    pub trace_id: Seq<char>,
    pub timestamp_unix: u64,
    pub stage: Stage,
    pub status: Option<TraceStatus>,
    pub ref_index: usize,
    pub resolver: ThreadResolverView,
    pub atoms: Seq<FurAtomView>,
    pub engine_note: Seq<char>,
}

impl View for Execution {
    type V = ExecutionView;

    open spec fn view(&self) -> ExecutionView {
        ExecutionView {
            task: self.task@,
            trace_id: self.trace_id@,
            timestamp_unix: self.timestamp_unix,
            stage: self.stage,
            status: self.status,
            ref_index: self.ref_index,
            resolver: self.resolver@,
            atoms: atom_views(self.atoms@),
            engine_note: self.engine_note@,
        }
    }
}

/// The write of `content` to the text artifact `name`.
pub open spec fn text_of(name: Seq<char>, content: Seq<char>) -> WriteView {
    WriteView::Text { name, content }
}

impl ExecutionView {
    /// The execution of `task` started at `timestamp_unix`, before its first
    /// step: the trace id is the timestamp in decimal, and nothing is on disk.
    pub open spec fn initial(task: TaskView, timestamp_unix: u64) -> ExecutionView {
        ExecutionView {
            task,
            trace_id: decimal(timestamp_unix as nat),
            timestamp_unix,
            stage: Stage::AwaitProbe,
            status: None,
            ref_index: 0,
            resolver: ThreadResolverView::initial(Seq::empty()),
            atoms: Seq::empty(),
            engine_note: Seq::empty(),
        }
    }

    /// Ends the execution: after `writes`, `result` is surfaced.
    pub open spec fn close(self, writes: Seq<WriteView>, result: Result<Seq<char>, FailureView>) -> (
        ExecutionView,
        StepView,
    ) {
        (ExecutionView { stage: Stage::Closed, ..self }, StepView {
            writes,
            next: NextView::Finish(result),
        })
    }

    /// The writes that scaffold the trace and freeze the task into it.
    pub open spec fn scaffold(self) -> Seq<WriteView> {
        seq![WriteView::CreateTrace] + initial_layout(self.trace_id, self.timestamp_unix)
            + seq![WriteView::Input]
    }

    /// Turns to the memory reference at `ref_index`, after `writes`. When
    /// there is none left the atom ledger is persisted and the context asked
    /// for; a reference to an unsupported memory system ends the execution;
    /// else that conversation's thread record is asked for.
    pub open spec fn resolve_next(self, writes: Seq<WriteView>) -> (ExecutionView, StepView) {
        if self.ref_index >= self.task.memory_refs.len() {
            (ExecutionView { stage: Stage::AwaitContext, ..self }, StepView {
                writes: writes.push(WriteView::Materials),
                next: NextView::Context,
            })
        } else {
            let memory = self.task.memory_refs[self.ref_index as int];
            if !memory.is_supported() {
                self.close(writes, Err(FailureView::UnsupportedMemorySystem))
            } else {
                (
                    ExecutionView {
                        stage: Stage::Resolving,
                        resolver: ThreadResolverView::initial(memory.convo_id),
                        ..self
                    },
                    StepView {
                        writes,
                        next: NextView::Fetch(
                            StoreRequestView::Thread(thread_record(memory.convo_id)),
                        ),
                    },
                )
            }
        }
    }

    /// The step on the answer to the probe: a taken id ends the execution
    /// without a single write; a free one is scaffolded and resolution begins.
    pub open spec fn on_probe(self, exists: bool) -> (ExecutionView, StepView) {
        if exists {
            self.close(Seq::empty(), Err(FailureView::AlreadyExists(self.trace_id)))
        } else {
            (ExecutionView { status: Some(TraceStatus::Initialized), ..self }).resolve_next(
                self.scaffold(),
            )
        }
    }

    /// The step on a reply of the conversation store: the resolver takes it;
    /// when the conversation is complete its atoms are appended to those of
    /// the references before it, and the next reference is turned to.
    pub open spec fn on_store(self, reply: StoreReplyView) -> (ExecutionView, StepView) {
        let (resolver, resolution) = self.resolver.step(reply);
        let held = ExecutionView { resolver, ..self };
        match resolution {
            ResolutionView::Need(request) => (held, StepView {
                writes: Seq::empty(),
                next: NextView::Fetch(request),
            }),
            ResolutionView::Done => (ExecutionView {
                atoms: self.atoms + resolver.atoms,
                ref_index: if self.ref_index < usize::MAX {
                    (self.ref_index + 1) as usize
                } else {
                    self.ref_index
                },
                ..held
            }).resolve_next(Seq::empty()),
            ResolutionView::Failed(why) => held.close(Seq::empty(), Err(why)),
        }
    }

    /// The step on the context chunks: the prompt is assembled and persisted,
    /// and the engine that the task selects is asked to run on it. A task
    /// that selects no engine ends the execution after the prompt is written.
    pub open spec fn on_context(self, chunks: Seq<Seq<char>>) -> (ExecutionView, StepView) {
        let prompt = full_prompt(self.task, self.atoms, chunks);
        let writes = seq![text_of(PROMPT_FILE@, prompt)];
        match selected_engine(self.task.engine) {
            Err(why) => self.close(writes, Err(why)),
            Ok(choice) => (
                ExecutionView {
                    stage: Stage::AwaitEngine,
                    engine_note: choice.description(),
                    ..self
                },
                StepView { writes, next: NextView::Engine { choice, prompt } },
            ),
        }
    }

    /// The writes of a grounding violation: the response, the diagnostic, and
    /// the status `Failed`.
    pub open spec fn violation_writes(response: Seq<char>, why: FailureView) -> Seq<WriteView> {
        seq![
            text_of(RESPONSE_FILE@, response),
            text_of(VIOLATION_FILE@, why.message()),
            WriteView::Status(TraceStatus::Failed),
        ]
    }

    /// The writes of a grounded response: the response and its markdown copy,
    /// the engine's description, the usage ledger, and the status `Executed`.
    pub open spec fn success_writes(self, response: Seq<char>, citations: Seq<Seq<char>>) -> Seq<
        WriteView,
    > {
        seq![
            text_of(RESPONSE_FILE@, response),
            text_of(RESPONSE_MD_FILE@, response),
            text_of(ENGINE_FILE@, self.engine_note),
            WriteView::Usage(usage_ledger(self.atoms, citations)),
            WriteView::Status(TraceStatus::Executed),
        ]
    }

    /// The end of an execution whose engine answered `response`, in which the
    /// citations `citations` were found: their validation decides between
    /// `Executed` and `Failed`.
    pub open spec fn on_response(self, response: Seq<char>, citations: Seq<Seq<char>>) -> (
        ExecutionView,
        StepView,
    ) {
        match validated(citations, message_ids(self.atoms)) {
            Err(why) => (ExecutionView { status: Some(TraceStatus::Failed), ..self }).close(
                Self::violation_writes(response, why),
                Err(why),
            ),
            Ok(()) => (ExecutionView { status: Some(TraceStatus::Executed), ..self }).close(
                self.success_writes(response, citations),
                Ok(RESPONSE_MD_FILE@),
            ),
        }
    }

    /// The end of an execution whose engine failed: the trace is marked
    /// `Failed` and the engine's failure surfaced.
    pub open spec fn on_engine_failure(self, why: FailureView) -> (ExecutionView, StepView) {
        (ExecutionView { status: Some(TraceStatus::Failed), ..self }).close(
            seq![WriteView::Status(TraceStatus::Failed)],
            Err(why),
        )
    }

    /// Every atom carries the digest of its content.
    pub open spec fn ledger_intact(self) -> bool {
        forall|i: int| 0 <= i < self.atoms.len() ==> (#[trigger] self.atoms[i]).hash_intact()
    }

    /// What every state reached from an initial one satisfies: the atoms are
    /// intact; there is no trace before the probe is answered; while the
    /// execution runs the trace is `Initialized`; and a resolution in progress
    /// is that of the memory reference at `ref_index`.
    pub open spec fn well_formed(self) -> bool {
        &&& self.ledger_intact()
        &&& match self.stage {
            Stage::AwaitProbe => self.status is None && self.atoms.len() == 0,
            Stage::Resolving => self.status == Some(TraceStatus::Initialized) && self.ref_index
                < self.task.memory_refs.len() && self.resolver.well_formed()
                && self.resolver.convo_id
                == self.task.memory_refs[self.ref_index as int].convo_id,
            Stage::AwaitContext => self.status == Some(TraceStatus::Initialized),
            Stage::AwaitEngine => self.status == Some(TraceStatus::Initialized),
            Stage::Closed => true,
        }
    }

    /// One step of an execution: the state and the event that answers the
    /// pending request give the next state, the writes to carry out and the
    /// next request. An event that does not answer the pending request ends
    /// the execution without a write.
    pub open spec fn step(self, event: EventView) -> (ExecutionView, StepView) {
        match (self.stage, event) {
            (Stage::AwaitProbe, EventView::Probed { exists }) => self.on_probe(exists),
            (Stage::Resolving, EventView::Store(reply)) => self.on_store(reply),
            (Stage::AwaitContext, EventView::Context(chunks)) => self.on_context(chunks),
            (Stage::AwaitEngine, EventView::Engine(Ok(response))) => self.on_response(
                response,
                extracted(response),
            ),
            (Stage::AwaitEngine, EventView::Engine(Err(why))) => self.on_engine_failure(why),
            _ => self.close(Seq::empty(), Err(FailureView::UnexpectedEvent)),
        }
    }
}

fn append_copies(into: &mut Vec<FurAtom>, from: &Vec<FurAtom>)
    ensures
        atom_views(final(into)@) == atom_views(old(into)@) + atom_views(from@),
{
    let ghost start = atom_views(into@);
    let mut i: usize = 0;
    assert(atom_views(from@).take(0) =~= Seq::<FurAtomView>::empty());
    assert(atom_views(into@) =~= start + atom_views(from@).take(0));
    while i < from.len()
        invariant
            i <= from.len(),
            atom_views(into@) == start + atom_views(from@).take(i as int),
        decreases from.len() - i,
    {
        let ghost before = atom_views(into@);
        into.push(from[i].clone());
        assert(atom_views(into@) =~= before.push(from@[i as int]@));
        assert(atom_views(from@).take(i + 1) =~= atom_views(from@).take(i as int).push(
            from@[i as int]@,
        ));
        i += 1;
    }
    assert(atom_views(from@).take(i as int) =~= atom_views(from@));
}

/// Starts the execution of `task` at `timestamp_unix`: the execution in its
/// initial state, and the request to probe for the trace id derived from the
/// timestamp.
pub fn execute_task(task: Task, timestamp_unix: u64) -> (out: (Execution, Step))
    ensures
        out.0@ == ExecutionView::initial(task@, timestamp_unix),
        out.0@.well_formed(),
        out.1@ == (StepView {
            writes: Seq::empty(),
            next: NextView::Probe(decimal(timestamp_unix as nat)),
        }),
{
    let trace_id = trace_id_at(timestamp_unix);
    let (resolver, _) = load_fur_thread("");
    proof {
        reveal_strlit("");
        assert(""@ =~= Seq::<char>::empty());
    }
    let execution = Execution {
        task,
        trace_id: trace_id.clone(),
        timestamp_unix,
        stage: Stage::AwaitProbe,
        status: None,
        ref_index: 0,
        resolver,
        atoms: Vec::new(),
        engine_note: String::new(),
    };
    let step = Step { writes: Vec::new(), next: Next::Probe(trace_id) };
    assert(execution@.atoms =~= Seq::empty());
    assert(step@.writes =~= Seq::empty());
    (execution, step)
}

impl Execution {
    fn finish(&mut self, writes: Vec<Write>, result: Result<String, Failure>) -> (out: Step)
        ensures
            (final(self)@, out@) == old(self)@.close(write_views(writes@), response_view(result)),
            old(self)@.ledger_intact() ==> final(self)@.well_formed(),
    {
        self.stage = Stage::Closed;
        assert(self@.atoms == old(self)@.atoms);
        Step { writes, next: Next::Finish(result) }
    }

    fn resolve_next(&mut self, writes: Vec<Write>) -> (out: Step)
        ensures
            (final(self)@, out@) == old(self)@.resolve_next(write_views(writes@)),
            old(self)@.ledger_intact() && old(self).status == Some(TraceStatus::Initialized)
                ==> final(self)@.well_formed(),
    {
        let mut writes = writes;
        if self.ref_index >= self.task.memory_refs.len() {
            let ghost before = write_views(writes@);
            writes.push(Write::Materials);
            assert(write_views(writes@) =~= before.push(WriteView::Materials));
            self.stage = Stage::AwaitContext;
            Step { writes, next: Next::Context }
        } else {
            let memory = &self.task.memory_refs[self.ref_index];
            assert(self@.task.memory_refs[self.ref_index as int] == memory@);
            if !memory.is_supported() {
                self.finish(writes, Err(Failure::UnsupportedMemorySystem))
            } else {
                let (resolver, request) = load_fur_thread(memory.convo_id.as_str());
                self.resolver = resolver;
                self.stage = Stage::Resolving;
                Step { writes, next: Next::Fetch(request) }
            }
        }
    }

    fn on_probe(&mut self, exists: bool) -> (out: Step)
        ensures
            (final(self)@, out@) == old(self)@.on_probe(exists),
            old(self)@.ledger_intact() ==> final(self)@.well_formed(),
    {
        if exists {
            let why = Failure::AlreadyExists(self.trace_id.clone());
            let writes: Vec<Write> = Vec::new();
            assert(write_views(writes@) =~= Seq::empty());
            self.finish(writes, Err(why))
        } else {
            let mut writes: Vec<Write> = Vec::new();
            writes.push(Write::CreateTrace);
            assert(write_views(writes@) =~= seq![WriteView::CreateTrace]);
            initialize_trace_layout(&mut writes, self.trace_id.as_str(), self.timestamp_unix);
            let ghost before = write_views(writes@);
            writes.push(Write::Input);
            assert(write_views(writes@) =~= before.push(WriteView::Input));
            assert(write_views(writes@) =~= self@.scaffold());
            self.status = Some(TraceStatus::Initialized);
            self.resolve_next(writes)
        }
    }

    fn on_store(&mut self, reply: StoreReply) -> (out: Step)
        ensures
            (final(self)@, out@) == old(self)@.on_store(reply@),
            old(self)@.well_formed() && old(self).stage == Stage::Resolving
                ==> final(self)@.well_formed(),
    {
        let resolution = self.resolver.feed(reply);
        match resolution {
            Resolution::Need(request) => {
                let writes: Vec<Write> = Vec::new();
                assert(write_views(writes@) =~= Seq::empty());
                Step { writes, next: Next::Fetch(request) }
            },
            Resolution::Done => {
                append_copies(&mut self.atoms, &self.resolver.atoms);
                if self.ref_index < usize::MAX {
                    self.ref_index = self.ref_index + 1;
                }
                let writes: Vec<Write> = Vec::new();
                assert(write_views(writes@) =~= Seq::empty());
                self.resolve_next(writes)
            },
            Resolution::Failed(why) => {
                let writes: Vec<Write> = Vec::new();
                assert(write_views(writes@) =~= Seq::empty());
                self.finish(writes, Err(why))
            },
        }
    }

    fn on_context(&mut self, chunks: Vec<String>) -> (out: Step)
        ensures
            (final(self)@, out@) == old(self)@.on_context(texts(chunks@)),
            old(self)@.ledger_intact() && old(self).status == Some(TraceStatus::Initialized)
                ==> final(self)@.well_formed(),
    {
        let prompt = build_prompt(&self.task, self.atoms.as_slice(), chunks.as_slice());
        let mut writes: Vec<Write> = Vec::new();
        writes.push(text_write(PROMPT_FILE, prompt.as_str()));
        assert(write_views(writes@) =~= seq![text_of(PROMPT_FILE@, prompt@)]);
        match select_engine(&self.task.engine) {
            Err(why) => self.finish(writes, Err(why)),
            Ok(choice) => {
                self.engine_note = choice.describe();
                self.stage = Stage::AwaitEngine;
                Step { writes, next: Next::Engine { choice, prompt } }
            },
        }
    }

    /// Ends an execution whose engine answered `response`, given the citations
    /// found in it: a grounding violation is recorded and the trace marked
    /// `Failed`; a grounded response is recorded with its usage ledger and the
    /// trace marked `Executed`.
    pub fn conclude(&mut self, response: String, citations: Vec<String>) -> (out: Step)
        ensures
            (final(self)@, out@) == old(self)@.on_response(response@, texts(citations@)),
            old(self)@.ledger_intact() ==> final(self)@.well_formed(),
    {
        match validate_citations(citations.as_slice(), self.atoms.as_slice()) {
            Err(why) => {
                let mut writes: Vec<Write> = Vec::new();
                writes.push(text_write(RESPONSE_FILE, response.as_str()));
                writes.push(text_write(VIOLATION_FILE, why.message().as_str()));
                writes.push(Write::Status(TraceStatus::Failed));
                assert(write_views(writes@) =~= ExecutionView::violation_writes(
                    response@,
                    why@,
                ));
                self.status = Some(TraceStatus::Failed);
                self.finish(writes, Err(why))
            },
            Ok(()) => {
                let rows = used_atoms(self.atoms.as_slice(), citations.as_slice());
                let mut writes: Vec<Write> = Vec::new();
                writes.push(text_write(RESPONSE_FILE, response.as_str()));
                writes.push(text_write(RESPONSE_MD_FILE, response.as_str()));
                writes.push(text_write(ENGINE_FILE, self.engine_note.as_str()));
                writes.push(Write::Usage(rows));
                writes.push(Write::Status(TraceStatus::Executed));
                assert(write_views(writes@) =~= self@.success_writes(
                    response@,
                    texts(citations@),
                ));
                self.status = Some(TraceStatus::Executed);
                self.finish(writes, Ok(String::from_str(RESPONSE_MD_FILE)))
            },
        }
    }

    fn on_engine_failure(&mut self, why: Failure) -> (out: Step)
        ensures
            (final(self)@, out@) == old(self)@.on_engine_failure(why@),
            old(self)@.ledger_intact() ==> final(self)@.well_formed(),
    {
        let mut writes: Vec<Write> = Vec::new();
        writes.push(Write::Status(TraceStatus::Failed));
        assert(write_views(writes@) =~= seq![WriteView::Status(TraceStatus::Failed)]);
        self.status = Some(TraceStatus::Failed);
        assert(self@.atoms == old(self)@.atoms);
        self.finish(writes, Err(why))
    }

    /// One step of the execution: takes the event that answers the pending
    /// request and gives the writes to carry out and the next request.
    pub fn step(&mut self, event: Event) -> (out: Step)
        ensures
            (final(self)@, out@) == old(self)@.step(event@),
            old(self)@.well_formed() ==> final(self)@.well_formed(),
    {
        match (self.stage, event) {
            (Stage::AwaitProbe, Event::Probed { exists }) => self.on_probe(exists),
            (Stage::Resolving, Event::Store(reply)) => self.on_store(reply),
            (Stage::AwaitContext, Event::Context(chunks)) => self.on_context(chunks),
            (Stage::AwaitEngine, Event::Engine(Ok(response))) => {
                let citations = extract_fur_citations(response.as_str());
                self.conclude(response, citations)
            },
            (Stage::AwaitEngine, Event::Engine(Err(why))) => self.on_engine_failure(why),
            _ => {
                let writes: Vec<Write> = Vec::new();
                assert(write_views(writes@) =~= Seq::empty());
                self.finish(writes, Err(Failure::UnexpectedEvent))
            },
        }
    }
}

/// Prompt assembly is a function of the task, the atoms and the context
/// chunks: the same three give the same prompt, character for character.
pub proof fn lemma_prompt_deterministic(
    task_a: TaskView,
    atoms_a: Seq<FurAtomView>,
    chunks_a: Seq<Seq<char>>,
    task_b: TaskView,
    atoms_b: Seq<FurAtomView>,
    chunks_b: Seq<Seq<char>>,
)
    requires
        task_a == task_b,
        atoms_a == atoms_b,
        chunks_a == chunks_b,
    ensures
        full_prompt(task_a, atoms_a, chunks_a) == full_prompt(task_b, atoms_b, chunks_b),
{
}

/// The usage ledger depends on which ids are cited, not on how often or in
/// what order: two runs of citations with the same members give the same
/// ledger.
pub proof fn lemma_usage_ignores_citation_order(
    atoms: Seq<FurAtomView>,
    citations_a: Seq<Seq<char>>,
    citations_b: Seq<Seq<char>>,
)
    requires
        forall|id: Seq<char>| citations_a.contains(id) <==> citations_b.contains(id),
    ensures
        usage_ledger(atoms, citations_a) == usage_ledger(atoms, citations_b),
    decreases atoms.len(),
{
    if atoms.len() > 0 {
        lemma_usage_ignores_citation_order(atoms.drop_last(), citations_a, citations_b);
    }
}

/// Every row of the usage ledger is the row of an atom whose message id is
/// cited, and every atom whose message id is cited has its row.
pub proof fn lemma_usage_is_cited_atoms(atoms: Seq<FurAtomView>, citations: Seq<Seq<char>>)
    ensures
        forall|k: int|
            0 <= k < usage_ledger(atoms, citations).len() ==> citations.contains(
                (#[trigger] usage_ledger(atoms, citations)[k]).message_id,
            ),
        forall|i: int|
            0 <= i < atoms.len() && citations.contains((#[trigger] atoms[i]).message_id)
                ==> usage_ledger(atoms, citations).contains(used_row(atoms[i])),
        forall|k: int|
            0 <= k < usage_ledger(atoms, citations).len() ==> exists|i: int|
                0 <= i < atoms.len() && used_row(atoms[i]) == #[trigger] usage_ledger(
                    atoms,
                    citations,
                )[k],
    decreases atoms.len(),
{
    let ledger = usage_ledger(atoms, citations);
    if atoms.len() > 0 {
        let init = atoms.drop_last();
        let before = usage_ledger(init, citations);
        lemma_usage_is_cited_atoms(init, citations);
        assert forall|i: int|
            0 <= i < atoms.len() && citations.contains(
                (#[trigger] atoms[i]).message_id,
            ) implies ledger.contains(used_row(atoms[i])) by {
            if i < atoms.len() - 1 {
                assert(init[i] == atoms[i]);
                assert(before.contains(used_row(init[i])));
                let k = choose|k: int| 0 <= k < before.len() && before[k] == used_row(init[i]);
                assert(ledger[k] == used_row(atoms[i]));
            } else {
                assert(ledger[ledger.len() - 1] == used_row(atoms[i]));
            }
        }
        assert forall|k: int| 0 <= k < ledger.len() implies exists|i: int|
            0 <= i < atoms.len() && used_row(atoms[i]) == #[trigger] ledger[k] by {
            if k < before.len() {
                assert(ledger[k] == before[k]);
                let i = choose|i: int| 0 <= i < init.len() && used_row(init[i]) == before[k];
                assert(init[i] == atoms[i]);
            } else {
                assert(used_row(atoms[atoms.len() - 1]) == ledger[k]);
            }
        }
        assert forall|k: int| 0 <= k < ledger.len() implies citations.contains(
            (#[trigger] ledger[k]).message_id,
        ) by {
            if k < before.len() {
                assert(ledger[k] == before[k]);
            }
        }
    }
}

/// A trace id that is already taken ends the execution at once: not one write
/// is asked for, no trace status comes into being, and the failure names the
/// id.
pub proof fn lemma_taken_id_writes_nothing(s: ExecutionView)
    requires
        s.stage == Stage::AwaitProbe,
    ensures
        s.step(EventView::Probed { exists: true }).1.writes.len() == 0,
        s.step(EventView::Probed { exists: true }).1.next == NextView::Finish(
            Err(FailureView::AlreadyExists(s.trace_id)),
        ),
        s.step(EventView::Probed { exists: true }).0.status == s.status,
        s.step(EventView::Probed { exists: true }).0.stage == Stage::Closed,
{
}

/// Whether `writes` asks for a status change.
pub open spec fn writes_status(writes: Seq<WriteView>) -> bool {
    exists|k: int| 0 <= k < writes.len() && #[trigger] writes[k] is Status
}

/// The trace's status moves only along the edges of the state machine: a
/// step leaves it as it is, or brings the trace into being as `Initialized`,
/// or takes it from `Initialized` to a terminal status, and then the step's
/// last write is that status change. A terminal status is never left.
pub proof fn lemma_status_follows_state_machine(s: ExecutionView, event: EventView)
    requires
        s.well_formed(),
    ensures
        ({
            let (after, out) = s.step(event);
            ||| after.status == s.status && !writes_status(out.writes)
            ||| s.status is None && after.status == Some(TraceStatus::Initialized)
                && !writes_status(out.writes)
            ||| s.status == Some(TraceStatus::Initialized) && after.status is Some
                && transition_allowed(TraceStatus::Initialized, after.status->0)
                && out.writes.len() > 0 && out.writes.last() == WriteView::Status(
                after.status->0,
            ) && after.stage == Stage::Closed
        }),
        s.status is Some && s.status->0.is_terminal() ==> s.step(event).0.status == s.status,
{
    let (after, out) = s.step(event);
    match (s.stage, event) {
        (Stage::AwaitProbe, EventView::Probed { exists }) => {
            if !exists {
                let t = ExecutionView { status: Some(TraceStatus::Initialized), ..s };
                lemma_resolve_next_status(t, s.scaffold());
                assert(!writes_status(s.scaffold())) by {
                    assert forall|k: int| 0 <= k < s.scaffold().len() implies !(
                    #[trigger] s.scaffold()[k] is Status) by {}
                }
            }
        },
        (Stage::Resolving, EventView::Store(reply)) => {
            let (resolver, resolution) = s.resolver.step(reply);
            let held = ExecutionView { resolver, ..s };
            match resolution {
                ResolutionView::Done => {
                    let t = ExecutionView {
                        atoms: s.atoms + resolver.atoms,
                        ref_index: if s.ref_index < usize::MAX {
                            (s.ref_index + 1) as usize
                        } else {
                            s.ref_index
                        },
                        ..held
                    };
                    lemma_resolve_next_status(t, Seq::empty());
                },
                _ => {},
            }
        },
        (Stage::AwaitContext, EventView::Context(chunks)) => {
            let w = seq![text_of(PROMPT_FILE@, full_prompt(s.task, s.atoms, chunks))];
            assert(!writes_status(w));
        },
        (Stage::AwaitEngine, EventView::Engine(Ok(response))) => {},
        (Stage::AwaitEngine, EventView::Engine(Err(why))) => {},
        _ => {},
    }
}

proof fn lemma_resolve_next_status(s: ExecutionView, writes: Seq<WriteView>)
    requires
        !writes_status(writes),
    ensures
        s.resolve_next(writes).0.status == s.status,
        !writes_status(s.resolve_next(writes).1.writes),
{
    let out = s.resolve_next(writes).1.writes;
    if writes_status(out) {
        let k = choose|k: int| 0 <= k < out.len() && #[trigger] out[k] is Status;
        if k < writes.len() {
            assert(writes[k] is Status);
        }
    }
}

/// A trace becomes `Executed` only on a response of the engine whose
/// citations pass validation: the response cites at least one message id, and
/// every id it cites is that of an atom of this execution. No other event,
/// and no response that violates grounding, leads there.
pub proof fn lemma_executed_only_when_grounded(s: ExecutionView, event: EventView)
    requires
        s.well_formed(),
        s.status != Some(TraceStatus::Executed),
        s.step(event).0.status == Some(TraceStatus::Executed),
    ensures
        s.stage == Stage::AwaitEngine,
        event matches EventView::Engine(Ok(response)) && validated(
            extracted(response),
            message_ids(s.atoms),
        ) is Ok && extracted(response).len() > 0 && forall|i: int|
            0 <= i < extracted(response).len() ==> message_ids(s.atoms).contains(
                #[trigger] extracted(response)[i],
            ),
{
    lemma_status_follows_state_machine(s, event);
    match (s.stage, event) {
        (Stage::AwaitProbe, EventView::Probed { exists }) => {
            if !exists {
                let t = ExecutionView { status: Some(TraceStatus::Initialized), ..s };
                lemma_resolve_next_status(t, s.scaffold());
                assert(!writes_status(s.scaffold())) by {
                    assert forall|k: int| 0 <= k < s.scaffold().len() implies !(
                    #[trigger] s.scaffold()[k] is Status) by {}
                }
            }
        },
        (Stage::AwaitEngine, EventView::Engine(Ok(response))) => {
            lemma_validated_iff_grounded(extracted(response), message_ids(s.atoms));
        },
        _ => {},
    }
}

/// A response that violates grounding marks the trace `Failed`, persists the
/// response and the violation's message, and surfaces the violation.
pub proof fn lemma_violation_fails_trace(s: ExecutionView, response: Seq<char>)
    requires
        s.stage == Stage::AwaitEngine,
        validated(extracted(response), message_ids(s.atoms)) is Err,
    ensures
        ({
            let why = validated(extracted(response), message_ids(s.atoms))->Err_0;
            let (after, out) = s.step(EventView::Engine(Ok(response)));
            &&& why.is_grounding_violation()
            &&& after.status == Some(TraceStatus::Failed)
            &&& after.stage == Stage::Closed
            &&& out.next == NextView::Finish(Err(why))
            &&& out.writes == seq![
                text_of(RESPONSE_FILE@, response),
                text_of(VIOLATION_FILE@, why.message()),
                WriteView::Status(TraceStatus::Failed),
            ]
        }),
{
    lemma_validation_failures(extracted(response), message_ids(s.atoms));
}

/// The resolver's state after `event`, where the event is a reply of the
/// store that completes the conversation being resolved.
pub open spec fn completed_conversation(s: ExecutionView, event: EventView) -> Option<
    ThreadResolverView,
> {
    match event {
        EventView::Store(reply) => if s.stage == Stage::Resolving && s.resolver.step(reply).1
            is Done {
            Some(s.resolver.step(reply).0)
        } else {
            None
        },
        _ => None,
    }
}

/// Atoms are only ever appended: every step keeps the atoms that were there,
/// in their order, at the front. When a conversation completes, its atoms
/// follow those of the references before it, in the conversation's own order;
/// no other step changes the atoms.
pub proof fn lemma_atoms_append_in_reference_order(s: ExecutionView, event: EventView)
    ensures
        s.atoms.is_prefix_of(s.step(event).0.atoms),
        match completed_conversation(s, event) {
            Some(resolver) => s.step(event).0.atoms == s.atoms + resolver.atoms,
            None => s.step(event).0.atoms == s.atoms,
        },
{
    let after = s.step(event).0;
    match (s.stage, event) {
        (Stage::Resolving, EventView::Store(reply)) => {
            let (resolver, resolution) = s.resolver.step(reply);
            if resolution is Done {
                assert(after.atoms == s.atoms + resolver.atoms);
                assert((s.atoms + resolver.atoms).subrange(0, s.atoms.len() as int) =~= s.atoms);
            } else {
                assert(after.atoms == s.atoms);
                assert(s.atoms.subrange(0, s.atoms.len() as int) =~= s.atoms);
            }
        },
        _ => {
            assert(after.atoms == s.atoms);
            assert(s.atoms.subrange(0, s.atoms.len() as int) =~= s.atoms);
        },
    }
}

} // verus!
