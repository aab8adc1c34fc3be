//! The process-backed engine: what to check before the model runner is
//! started, with which arguments to start it, and how to read its exit.

use vstd::prelude::*;
use vstd::string::*;
use crate::failure::{response_view, unit_view, Failure, FailureView};
use crate::text::{decimal, render_decimal, texts};

verus! {

/// A model runner started as a child process.
#[derive(Debug)]
pub struct LlamaCppEngine {
    /// Path of the runner's binary.
    pub binary: String,
    /// Path of the model file.
    pub model: String,
    /// Upper bound on the number of tokens to generate.
    pub n_predict: usize,
}

/// `LlamaCppEngine` with its texts as character sequences.
pub struct LlamaCppEngineView {
    pub binary: Seq<char>,
    pub model: Seq<char>,
    pub n_predict: usize,
}

impl View for LlamaCppEngine {
    type V = LlamaCppEngineView;

    open spec fn view(&self) -> LlamaCppEngineView {
        LlamaCppEngineView { binary: self.binary@, model: self.model@, n_predict: self.n_predict }
    }
}

impl LlamaCppEngineView {
    /// The engine's description of itself.
    pub open spec fn description(self) -> Seq<char> {
        "engine: llama.cpp\nbinary: "@ + self.binary + "\nmodel: "@ + self.model
            + "\nn_predict: "@ + decimal(self.n_predict as nat) + "\n"@
    }

    /// The arguments the runner is started with for `prompt`.
    pub open spec fn arguments(self, prompt: Seq<char>) -> Seq<Seq<char>> {
        seq![
            "-m"@,
            self.model,
            "--n-predict"@,
            decimal(self.n_predict as nat),
            "--prompt"@,
            prompt,
        ]
    }

    /// The check made before the runner is started: the binary must be there,
    /// and then the model.
    pub open spec fn preflight(self, binary_exists: bool, model_exists: bool) -> Result<
        (),
        FailureView,
    > {
        if !binary_exists {
            Err(FailureView::ResourceNotFound("llama.cpp binary not found: "@ + self.binary))
        } else if !model_exists {
            Err(FailureView::ResourceNotFound("model file not found: "@ + self.model))
        } else {
            Ok(())
        }
    }
}

/// How the runner's exit is read: on success the response is its standard
/// output, else the failure carries its diagnostic stream.
pub open spec fn process_outcome(success: bool, stdout: Seq<char>, stderr: Seq<char>) -> Result<
    Seq<char>,
    FailureView,
> {
    if success {
        Ok(stdout)
    } else {
        Err(FailureView::Engine("llama.cpp execution failed:\n"@ + stderr))
    }
}

impl LlamaCppEngine {
    /// The engine's description of itself.
    pub fn describe(&self) -> (out: String)
        ensures
            out@ == self@.description(),
    {
        String::from_str("engine: llama.cpp\nbinary: ").concat(self.binary.as_str()).concat(
            "\nmodel: ",
        ).concat(self.model.as_str()).concat("\nn_predict: ").concat(
            render_decimal(self.n_predict as u64).as_str(),
        ).concat("\n")
    }

    /// Fails fast when the binary or the model is absent.
    pub fn preflight(&self, binary_exists: bool, model_exists: bool) -> (r: Result<(), Failure>)
        ensures
            unit_view(r) == self@.preflight(binary_exists, model_exists),
    {
        if !binary_exists {
            Err(
                Failure::ResourceNotFound(
                    String::from_str("llama.cpp binary not found: ").concat(self.binary.as_str()),
                ),
            )
        } else if !model_exists {
            Err(
                Failure::ResourceNotFound(
                    String::from_str("model file not found: ").concat(self.model.as_str()),
                ),
            )
        } else {
            Ok(())
        }
    }

    /// The arguments to start the runner with for `prompt`.
    pub fn arguments(&self, prompt: &str) -> (out: Vec<String>)
        ensures
            texts(out@) == self@.arguments(prompt@),
    {
        let mut out: Vec<String> = Vec::new();
        out.push(String::from_str("-m"));
        out.push(self.model.clone());
        out.push(String::from_str("--n-predict"));
        out.push(render_decimal(self.n_predict as u64));
        out.push(String::from_str("--prompt"));
        out.push(String::from_str(prompt));
        assert(texts(out@) =~= self@.arguments(prompt@));
        out
    }

    /// Reads the runner's exit: its standard output is the response, and a
    /// failed exit is an engine failure carrying the diagnostic stream.
    pub fn interpret_exit(success: bool, stdout: String, stderr: String) -> (r: Result<
        String,
        Failure,
    >)
        ensures
            response_view(r) == process_outcome(success, stdout@, stderr@),
    {
        if success {
            Ok(stdout)
        } else {
            Err(
                Failure::Engine(
                    String::from_str("llama.cpp execution failed:\n").concat(stderr.as_str()),
                ),
            )
        }
    }
}

impl Clone for LlamaCppEngine {
    fn clone(&self) -> (out: LlamaCppEngine)
        ensures
            out@ == self@,
    {
        LlamaCppEngine {
            binary: self.binary.clone(),
            model: self.model.clone(),
            n_predict: self.n_predict,
        }
    }
}

} // verus!
