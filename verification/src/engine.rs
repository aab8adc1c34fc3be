//! Engines: the backends that turn a prompt into a response.

use vstd::prelude::*;
use vstd::string::*;
use crate::engine_llamacpp::{LlamaCppEngine, LlamaCppEngineView};
use crate::failure::{response_view, Failure, FailureView};
use crate::fur_atom::ATOM_HEADER;
use crate::text::{
    from_chars,
    has_prefix,
    lines,
    rows,
    same_text,
    split,
    split_chars,
    split_lines,
    starts_with,
    to_chars,
    trim,
    trim_chars,
};

verus! {

/// Which backend a task asks for.
#[derive(Debug)]
pub struct EngineSpec {
    /// The backend's kind: `"stub"` or `"llama.cpp"`.
    pub engine_type: String,
    /// The backend's name; for a process-backed engine the path of its binary.
    pub name: String,
    /// The model the backend is to load.
    pub model: String,
    /// A secondary identity under which responses are logged.
    pub avatar: Option<String>,
}

/// `EngineSpec` with its texts as character sequences.
pub struct EngineSpecView {
    pub engine_type: Seq<char>,
    pub name: Seq<char>,
    pub model: Seq<char>,
    pub avatar: Option<Seq<char>>,
}

impl View for EngineSpec {
    type V = EngineSpecView;

    open spec fn view(&self) -> EngineSpecView {
        EngineSpecView {
            engine_type: self.engine_type@,
            name: self.name@,
            model: self.model@,
            avatar: match self.avatar {
                Some(a) => Some(a@),
                None => None,
            },
        }
    }
}

impl Clone for EngineSpec {
    fn clone(&self) -> (out: EngineSpec)
        ensures
            out@ == self@,
    {
        EngineSpec {
            engine_type: self.engine_type.clone(),
            name: self.name.clone(),
            model: self.model.clone(),
            avatar: match &self.avatar {
                Some(a) => Some(a.clone()),
                None => None,
            },
        }
    }
}

/// Engine type tag of the in-process stub.
pub const ENGINE_STUB: &'static str = "stub";

/// Engine type tag of the process-backed model runner.
pub const ENGINE_LLAMA_CPP: &'static str = "llama.cpp";

/// Generation length given to a process-backed engine.
pub const DEFAULT_N_PREDICT: usize = 512;

/// What every backend can do: turn a prompt into a response, and describe
/// itself.
pub trait Engine {
    /// Runs the backend on `prompt` and returns its whole response.
    fn run(&self, prompt: &str) -> Result<String, Failure>;

    /// A static description of the backend, for the trace.
    fn describe(&self) -> String;
}

/// The in-process engine used to exercise the lifecycle.
#[derive(Debug)]
pub struct StubEngine {}

/// What the stub says of itself.
pub open spec fn stub_description() -> Seq<char> {
    "engine: stub\nmodel: none\npurpose: lifecycle validation\n"@
}

/// The backends a task can ask for.
#[derive(Debug)]
pub enum EngineChoice {
    Stub(StubEngine),
    LlamaCpp(LlamaCppEngine),
}

/// `EngineChoice` with its texts as character sequences.
pub enum EngineChoiceView {
    Stub,
    LlamaCpp(LlamaCppEngineView),
}

impl View for EngineChoice {
    type V = EngineChoiceView;

    open spec fn view(&self) -> EngineChoiceView {
        match self {
            EngineChoice::Stub(_) => EngineChoiceView::Stub,
            EngineChoice::LlamaCpp(e) => EngineChoiceView::LlamaCpp(e@),
        }
    }
}

impl EngineChoiceView {
    /// The backend's description of itself.
    pub open spec fn description(self) -> Seq<char> {
        match self {
            EngineChoiceView::Stub => stub_description(),
            EngineChoiceView::LlamaCpp(e) => e.description(),
        }
    }
}

impl EngineChoice {
    /// The backend's description of itself.
    pub fn describe(&self) -> (out: String)
        ensures
            out@ == self@.description(),
    {
        match self {
            EngineChoice::Stub(_) => String::from_str(
                "engine: stub\nmodel: none\npurpose: lifecycle validation\n",
            ),
            EngineChoice::LlamaCpp(e) => e.describe(),
        }
    }
}

impl Clone for EngineChoice {
    fn clone(&self) -> (out: EngineChoice)
        ensures
            out@ == self@,
    {
        match self {
            EngineChoice::Stub(_) => EngineChoice::Stub(StubEngine {  }),
            EngineChoice::LlamaCpp(e) => EngineChoice::LlamaCpp(e.clone()),
        }
    }
}

/// The backend that an engine specification selects, or the failure for a
/// type tag that names none.
pub open spec fn selected_engine(spec: EngineSpecView) -> Result<EngineChoiceView, FailureView> {
    if spec.engine_type == ENGINE_LLAMA_CPP@ {
        Ok(
            EngineChoiceView::LlamaCpp(
                LlamaCppEngineView {
                    binary: spec.name,
                    model: spec.model,
                    n_predict: DEFAULT_N_PREDICT,
                },
            ),
        )
    } else if spec.engine_type == ENGINE_STUB@ {
        Ok(EngineChoiceView::Stub)
    } else {
        Err(FailureView::Config("unsupported engine type: "@ + spec.engine_type))
    }
}

/// The outcome of a selection as a view.
pub open spec fn selection_view(r: Result<EngineChoice, Failure>) -> Result<
    EngineChoiceView,
    FailureView,
> {
    match r {
        Ok(e) => Ok(e@),
        Err(f) => Err(f@),
    }
}

/// Selects the backend that `spec` asks for.
pub fn select_engine(spec: &EngineSpec) -> (r: Result<EngineChoice, Failure>)
    ensures
        selection_view(r) == selected_engine(spec@),
{
    if same_text(spec.engine_type.as_str(), ENGINE_LLAMA_CPP) {
        Ok(
            EngineChoice::LlamaCpp(
                LlamaCppEngine {
                    binary: spec.name.clone(),
                    model: spec.model.clone(),
                    n_predict: DEFAULT_N_PREDICT,
                },
            ),
        )
    } else if same_text(spec.engine_type.as_str(), ENGINE_STUB) {
        Ok(EngineChoice::Stub(StubEngine {  }))
    } else {
        Err(
            Failure::Config(
                String::from_str("unsupported engine type: ").concat(spec.engine_type.as_str()),
            ),
        )
    }
}

/// The first of `ls` that begins with `prefix`, if there is one.
pub open spec fn first_with_prefix(ls: Seq<Seq<char>>, prefix: Seq<char>) -> Option<Seq<char>>
    decreases ls.len(),
{
    if ls.len() == 0 {
        None
    } else if starts_with(ls[0], prefix) {
        Some(ls[0])
    } else {
        first_with_prefix(ls.drop_first(), prefix)
    }
}

/// What the stub cites: of the first line of the prompt that begins an atom
/// block, the third of the pieces between its colons, without the white space
/// around it. Nothing when no line begins an atom block, or that line has
/// fewer than three pieces.
pub open spec fn stub_citation(prompt: Seq<char>) -> Option<Seq<char>> {
    match first_with_prefix(lines(prompt), ATOM_HEADER@) {
        None => None,
        Some(header) => {
            let pieces = split(header, ':');
            if pieces.len() > 2 {
                Some(trim(pieces[2]))
            } else {
                None
            }
        },
    }
}

/// The stub's answer to a prompt: a sentence that cites what `stub_citation`
/// finds, or an engine failure when it finds nothing.
pub open spec fn stub_response(prompt: Seq<char>) -> Result<Seq<char>, FailureView> {
    match stub_citation(prompt) {
        Some(cited) => Ok(
            "The following atom was used to produce this response: ["@ + cited + "]."@,
        ),
        None => Err(FailureView::Engine("no atoms found in prompt"@)),
    }
}

fn find_with_prefix(ls: &Vec<Vec<char>>, prefix: &[char]) -> (found: Option<usize>)
    ensures
        match found {
            Some(i) => i < ls.len() && first_with_prefix(rows(ls@), prefix@) == Some(ls@[i as int]@),
            None => first_with_prefix(rows(ls@), prefix@) is None,
        },
{
    let ghost all = rows(ls@);
    let mut i: usize = 0;
    assert(all.skip(0) =~= all);
    while i < ls.len()
        invariant
            i <= ls.len(),
            all == rows(ls@),
            first_with_prefix(all, prefix@) == first_with_prefix(all.skip(i as int), prefix@),
        decreases ls.len() - i,
    {
        assert(all.skip(i as int)[0] == ls@[i as int]@);
        assert(all.skip(i as int).drop_first() =~= all.skip(i + 1));
        if has_prefix(ls[i].as_slice(), prefix) {
            return Some(i);
        }
        i += 1;
    }
    assert(all.skip(i as int).len() == 0);
    None
}

impl Engine for StubEngine {
    /// Cites the first atom block of the prompt, as `stub_response` says.
    fn run(&self, prompt: &str) -> (r: Result<String, Failure>)
        ensures
            response_view(r) == stub_response(prompt@),
    {
        let chars = to_chars(prompt);
        let all = split_lines(chars.as_slice());
        let header = to_chars(ATOM_HEADER);
        let cited = match find_with_prefix(&all, header.as_slice()) {
            None => None,
            Some(i) => {
                let pieces = split_chars(all[i].as_slice(), ':');
                assert(rows(pieces@).len() == pieces@.len());
                if pieces.len() > 2 {
                    assert(rows(pieces@)[2] == pieces@[2]@);
                    Some(trim_chars(pieces[2].as_slice()))
                } else {
                    None
                }
            },
        };
        match cited {
            Some(c) => Ok(
                String::from_str("The following atom was used to produce this response: [").concat(
                    from_chars(&c).as_str(),
                ).concat("]."),
            ),
            None => Err(Failure::Engine(String::from_str("no atoms found in prompt"))),
        }
    }

    /// The stub's fixed description of itself.
    fn describe(&self) -> (out: String)
        ensures
            out@ == stub_description(),
    {
        String::from_str("engine: stub\nmodel: none\npurpose: lifecycle validation\n")
    }
}

} // verus!
