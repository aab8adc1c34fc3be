//! The task: the frozen intent of one execution.

use vstd::prelude::*;
use crate::engine::{EngineSpec, EngineSpecView};
use crate::text::same_text;

verus! {

/// Name of the file a task is loaded from.
pub const TASK_FILE: &'static str = "task.yaml";

/// The only memory system whose references can be resolved.
pub const FUR_SYSTEM: &'static str = "fur";

/// A file to draw supplementary context from: the whole file is kept as a
/// document, and a line range or the part from a section marker on is cut out
/// of it.
#[derive(Debug)]
pub struct ContextRef {
    pub path: String,
    pub lines: Option<(usize, usize)>,
    pub section: Option<String>,
}

/// `ContextRef` with its texts as character sequences.
pub struct ContextRefView {
    pub path: Seq<char>,
    pub lines: Option<(usize, usize)>,
    pub section: Option<Seq<char>>,
}

impl View for ContextRef {
    type V = ContextRefView;

    open spec fn view(&self) -> ContextRefView {
        ContextRefView {
            path: self.path@,
            lines: self.lines,
            section: match self.section {
                Some(s) => Some(s@),
                None => None,
            },
        }
    }
}

impl ContextRefView {
    /// A line range and a section marker exclude each other.
    pub open spec fn well_formed(self) -> bool {
        !(self.lines is Some && self.section is Some)
    }
}

impl ContextRef {
    /// Whether at most one of line range and section marker is given.
    pub fn is_well_formed(&self) -> (b: bool)
        ensures
            b == self@.well_formed(),
    {
        !(self.lines.is_some() && self.section.is_some())
    }
}

impl Clone for ContextRef {
    fn clone(&self) -> (out: ContextRef)
        ensures
            out@ == self@,
    {
        ContextRef {
            path: self.path.clone(),
            lines: self.lines,
            section: match &self.section {
                Some(s) => Some(s.clone()),
                None => None,
            },
        }
    }
}

/// Names a conversation of an external memory system to draw material from.
#[derive(Debug)]
pub struct MemoryRef {
    pub system: String,
    pub convo_id: String,
}

/// `MemoryRef` with its texts as character sequences.
pub struct MemoryRefView {
    pub system: Seq<char>,
    pub convo_id: Seq<char>,
}

impl View for MemoryRef {
    type V = MemoryRefView;

    open spec fn view(&self) -> MemoryRefView {
        MemoryRefView { system: self.system@, convo_id: self.convo_id@ }
    }
}

impl MemoryRefView {
    /// Whether the reference names the supported memory system.
    pub open spec fn is_supported(self) -> bool {
        self.system == FUR_SYSTEM@
    }
}

impl MemoryRef {
    /// Whether the reference names the supported memory system.
    pub fn is_supported(&self) -> (b: bool)
        ensures
            b == self@.is_supported(),
    {
        same_text(self.system.as_str(), FUR_SYSTEM)
    }
}

impl Clone for MemoryRef {
    fn clone(&self) -> (out: MemoryRef)
        ensures
            out@ == self@,
    {
        MemoryRef { system: self.system.clone(), convo_id: self.convo_id.clone() }
    }
}

/// A memory reference pinned to one export of the conversation and its digest.
#[derive(Debug)]
pub struct LockedMemoryRef {
    pub system: String,
    pub convo_id: String,
    pub export: String,
    pub sha256: String,
}

/// What is asked of the engine, on which material, and with which engine.
#[derive(Debug)]
pub struct Task {
    pub task_type: String,
    pub prompt: String,
    pub memory_scope: String,
    pub context: Vec<ContextRef>,
    pub engine: EngineSpec,
    pub memory_refs: Vec<MemoryRef>,
}

/// `Task` with its texts as character sequences.
pub struct TaskView {
    pub task_type: Seq<char>,
    pub prompt: Seq<char>,
    pub memory_scope: Seq<char>,
    pub context: Seq<ContextRefView>,
    pub engine: EngineSpecView,
    pub memory_refs: Seq<MemoryRefView>,
}

impl View for Task {
    type V = TaskView;

    open spec fn view(&self) -> TaskView {
        TaskView {
            task_type: self.task_type@,
            prompt: self.prompt@,
            memory_scope: self.memory_scope@,
            context: self.context@.map_values(|c: ContextRef| c@),
            engine: self.engine@,
            memory_refs: self.memory_refs@.map_values(|m: MemoryRef| m@),
        }
    }
}

} // verus!
