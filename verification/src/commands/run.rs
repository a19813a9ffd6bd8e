//! `run`: start a runtime on a downloaded model.

use crate::config::{join, joined, models_dir_of, yuuki_dir_of};
use crate::dispatch::{
    arguments_of, candidate_names, candidates, first_found_wins, launch_arguments, locate,
    parse_preset, parse_runtime, preset_named, runtime_named, search, Preset, Probe, ProbeView,
    Runtime,
};
use crate::error::ErrorKind;
use crate::registry::{
    artifact_name, filename_for, known_model, reference, reference_text, validate, HF_ORG,
    OLLAMA_ORG,
};
use crate::store::model_dir;
use crate::text::{lowercase, lowercase_of, opt_text, texts, uppercase, uppercase_of};
use vstd::prelude::*;

verus! {

/// What is known so far of a run.
#[derive(Debug, Clone, PartialEq, Eq)]
pub struct RunFacts {
    /// The store's directories have been made.
    pub store_ready: bool,
    /// Whether the model's directory exists, once that has been looked up.
    pub directory_exists: Option<bool>,
    /// Whether the artifact's file exists, once that has been looked up.
    pub artifact_exists: Option<bool>,
    /// Whether the runtime's candidates are installed, in their order, as far
    /// as they have been tried.
    pub probed: Vec<bool>,
    /// Whether the runtime ended with success, once it has ended.
    pub exited: Option<bool>,
}

/// How a run ended without a failure.
#[derive(Debug, Clone, Copy, PartialEq, Eq, Structural)]
pub enum RunOutcome {
    /// The model has no directory in the store: it is to be downloaded first.
    NotDownloaded,
    /// None of the runtime's programs is installed.
    NotInstalled(Runtime),
    /// The runtime ran and ended with success.
    Completed,
}

/// Why a run failed.
#[derive(Debug, Clone, PartialEq, Eq)]
pub enum RunError {
    /// The model is not a known one.
    UnknownModel(String),
    /// The user has no home directory.
    NoHomeDirectory,
    /// The model's directory does not hold the file of this name.
    ArtifactMissing { filename: String, model: String },
    /// There is no runtime of this name.
    UnknownRuntime(String),
    /// The runtime, started on `target`, ended with a failure.
    RuntimeFailed { runtime: Runtime, target: String },
}

/// A `RunError` as plain values.
pub enum RunErrorView {
    UnknownModel(Seq<char>),
    NoHomeDirectory,
    ArtifactMissing { filename: Seq<char>, model: Seq<char> },
    UnknownRuntime(Seq<char>),
    RuntimeFailed { runtime: Runtime, target: Seq<char> },
}

impl View for RunError {
    type V = RunErrorView;

    open spec fn view(&self) -> RunErrorView {
        match self {
            RunError::UnknownModel(name) => RunErrorView::UnknownModel(name@),
            RunError::NoHomeDirectory => RunErrorView::NoHomeDirectory,
            RunError::ArtifactMissing { filename, model } => RunErrorView::ArtifactMissing {
                filename: filename@,
                model: model@,
            },
            RunError::UnknownRuntime(name) => RunErrorView::UnknownRuntime(name@),
            RunError::RuntimeFailed { runtime, target } => RunErrorView::RuntimeFailed {
                runtime: *runtime,
                target: target@,
            },
        }
    }
}

/// The next step of a run.
#[derive(Debug, Clone, PartialEq, Eq)]
pub enum RunStep {
    /// Make the store's directories where they are missing.
    OpenStore { yuuki_dir: String, models_dir: String },
    /// Find out whether this directory exists.
    CheckDirectory(String),
    /// Find out whether the file at `path` exists; its name is `filename`.
    CheckFile { path: String, filename: String },
    /// Find out whether a program of this name is installed.
    Probe(&'static str),
    /// Start this program with these arguments, on the user's terminal, and
    /// wait for it to end. The program is `runtime`'s, and `target` is what
    /// it is started on.
    Launch { runtime: Runtime, target: String, program: &'static str, arguments: Vec<String> },
    /// The run is over.
    Done(RunOutcome),
    /// The run failed.
    Fail(RunError),
}

/// A `RunStep` as plain values.
pub enum RunStepView {
    OpenStore { yuuki_dir: Seq<char>, models_dir: Seq<char> },
    CheckDirectory(Seq<char>),
    CheckFile { path: Seq<char>, filename: Seq<char> },
    Probe(Seq<char>),
    Launch { runtime: Runtime, target: Seq<char>, program: Seq<char>, arguments: Seq<Seq<char>> },
    Done(RunOutcome),
    Fail(RunErrorView),
}

impl View for RunStep {
    type V = RunStepView;

    open spec fn view(&self) -> RunStepView {
        match self {
            RunStep::OpenStore { yuuki_dir, models_dir } => RunStepView::OpenStore {
                yuuki_dir: yuuki_dir@,
                models_dir: models_dir@,
            },
            RunStep::CheckDirectory(path) => RunStepView::CheckDirectory(path@),
            RunStep::CheckFile { path, filename } => RunStepView::CheckFile {
                path: path@,
                filename: filename@,
            },
            RunStep::Probe(name) => RunStepView::Probe(name@),
            RunStep::Launch { runtime, target, program, arguments } => RunStepView::Launch {
                runtime: *runtime,
                target: target@,
                program: program@,
                arguments: texts(arguments@),
            },
            RunStep::Done(outcome) => RunStepView::Done(*outcome),
            RunStep::Fail(error) => RunStepView::Fail(error@),
        }
    }
}

/// The quantization of a run: the one asked for, or `q5_k_m`.
pub open spec fn quant_or_default(quant: Option<Seq<char>>) -> Seq<char> {
    match quant {
        Some(q) => q,
        None => "q5_k_m"@,
    }
}

/// The runtime's name in a run: the one asked for, or `llama-cpp`.
pub open spec fn runtime_or_default(runtime: Option<Seq<char>>) -> Seq<char> {
    match runtime {
        Some(r) => r,
        None => "llama-cpp"@,
    }
}

/// What a runtime is started on: llama.cpp on the artifact's file, the
/// streaming llama.cpp on the hub's reference, whose tag is `raised`, the
/// quantization in uppercase, and Ollama on its own reference, whose name is
/// `stem`, the model's name in lowercase.
pub open spec fn target_of(
    runtime: Runtime,
    model: Seq<char>,
    stem: Seq<char>,
    quant: Seq<char>,
    raised: Seq<char>,
    artifact: Seq<char>,
) -> Seq<char> {
    match runtime {
        Runtime::LlamaCpp => artifact,
        Runtime::LlamaHf => reference_text(HF_ORG@, model, raised),
        Runtime::Ollama => reference_text(OLLAMA_ORG@, stem, quant),
    }
}

/// The message of a failure.
pub open spec fn message_text(error: RunErrorView) -> Seq<char> {
    match error {
        RunErrorView::UnknownModel(name) => "Model '"@ + name
            + "' not found. Use 'yuy list models' to see available models."@,
        RunErrorView::NoHomeDirectory => "Could not find home directory"@,
        RunErrorView::ArtifactMissing { filename, model } => "Model file '"@ + filename
            + "' not found. Available quantizations may differ. Try: yuy info "@ + model,
        RunErrorView::UnknownRuntime(name) => "Unknown runtime: "@ + name
            + ". Use 'llama-cpp', 'llama-hf', or 'ollama'"@,
        RunErrorView::RuntimeFailed { runtime, target } => match runtime {
            Runtime::LlamaCpp => "llama.cpp exited with error"@,
            Runtime::LlamaHf => "llama-cli exited with error"@,
            Runtime::Ollama => "ollama exited with error"@,
        },
    }
}

/// The next step of running `runtime` on `target`, by what is known so far:
/// its candidates are tried in their order until one is found installed, or
/// the run ends with the advice to install; the program found is started;
/// how it ended decides between success and failure.
pub open spec fn launch_step(runtime: Runtime, target: Seq<char>, preset: Preset, facts: RunFacts)
    -> RunStepView {
    match search(candidate_names(runtime), facts.probed@) {
        ProbeView::Try(name) => RunStepView::Probe(name),
        ProbeView::Absent => RunStepView::Done(RunOutcome::NotInstalled(runtime)),
        ProbeView::Found(program) => match facts.exited {
            None => RunStepView::Launch {
                runtime,
                target,
                program,
                arguments: arguments_of(runtime, target, preset),
            },
            Some(true) => RunStepView::Done(RunOutcome::Completed),
            Some(false) => RunStepView::Fail(RunErrorView::RuntimeFailed { runtime, target }),
        },
    }
}

/// The next step of a run of `model`, by what is known so far; `stem` is
/// the model's name in lowercase and `raised` the quantization in
/// uppercase. In this order: the model must be a known one, and so must
/// the runtime, before anything is touched; the store is opened; the
/// model's directory must exist, or the run ends with the advice to
/// download; the artifact's file must exist; then the runtime is found and
/// started.
pub open spec fn next_step(
    model: Seq<char>,
    stem: Seq<char>,
    raised: Seq<char>,
    runtime: Option<Seq<char>>,
    quant: Option<Seq<char>>,
    preset: Option<Seq<char>>,
    home: Option<Seq<char>>,
    facts: RunFacts,
) -> RunStepView {
    if !known_model(model) {
        RunStepView::Fail(RunErrorView::UnknownModel(model))
    } else if runtime_named(runtime_or_default(runtime)) is None {
        RunStepView::Fail(RunErrorView::UnknownRuntime(runtime_or_default(runtime)))
    } else if home is None {
        RunStepView::Fail(RunErrorView::NoHomeDirectory)
    } else if !facts.store_ready {
        RunStepView::OpenStore {
            yuuki_dir: yuuki_dir_of(home.unwrap()),
            models_dir: models_dir_of(home.unwrap()),
        }
    } else {
        let chosen = runtime_named(runtime_or_default(runtime)).unwrap();
        let directory = joined(models_dir_of(home.unwrap()), model);
        let tag = quant_or_default(quant);
        let filename = artifact_name(stem, tag);
        let artifact = joined(directory, filename);
        if facts.directory_exists is None {
            RunStepView::CheckDirectory(directory)
        } else if !facts.directory_exists.unwrap() {
            RunStepView::Done(RunOutcome::NotDownloaded)
        } else if facts.artifact_exists is None {
            RunStepView::CheckFile { path: artifact, filename }
        } else if !facts.artifact_exists.unwrap() {
            RunStepView::Fail(RunErrorView::ArtifactMissing { filename, model })
        } else {
            launch_step(
                chosen,
                target_of(chosen, model, stem, tag, raised, artifact),
                preset_named(preset),
                facts,
            )
        }
    }
}

impl RunError {
    /// The class of the failure.
    pub fn kind(&self) -> (kind: ErrorKind)
        ensures
            kind == (match self@ {
                RunErrorView::UnknownModel(_) => ErrorKind::Validation,
                RunErrorView::NoHomeDirectory => ErrorKind::Io,
                RunErrorView::ArtifactMissing { .. } => ErrorKind::Io,
                RunErrorView::UnknownRuntime(_) => ErrorKind::Validation,
                RunErrorView::RuntimeFailed { .. } => ErrorKind::Process,
            }),
    {
        match self {
            RunError::UnknownModel(_) => ErrorKind::Validation,
            RunError::NoHomeDirectory => ErrorKind::Io,
            RunError::ArtifactMissing { .. } => ErrorKind::Io,
            RunError::UnknownRuntime(_) => ErrorKind::Validation,
            RunError::RuntimeFailed { .. } => ErrorKind::Process,
        }
    }

    /// The failure in words.
    pub fn message(&self) -> (text: String)
        ensures
            text@ == message_text(self@),
    {
        match self {
            RunError::UnknownModel(name) => {
                let mut text = String::from_str("Model '");
                text.append(name.as_str());
                text.append("' not found. Use 'yuy list models' to see available models.");
                text
            },
            RunError::NoHomeDirectory => String::from_str("Could not find home directory"),
            RunError::ArtifactMissing { filename, model } => {
                let mut text = String::from_str("Model file '");
                text.append(filename.as_str());
                text.append("' not found. Available quantizations may differ. Try: yuy info ");
                text.append(model.as_str());
                text
            },
            RunError::UnknownRuntime(name) => {
                let mut text = String::from_str("Unknown runtime: ");
                text.append(name.as_str());
                text.append(". Use 'llama-cpp', 'llama-hf', or 'ollama'");
                text
            },
            RunError::RuntimeFailed { runtime, target } => match runtime {
                Runtime::LlamaCpp => String::from_str("llama.cpp exited with error"),
                Runtime::LlamaHf => String::from_str("llama-cli exited with error"),
                Runtime::Ollama => String::from_str("ollama exited with error"),
            },
        }
    }
}

/// The next step of running `runtime` on `target` with the preset given.
pub fn launch(runtime: Runtime, target: &str, preset: Preset, facts: &RunFacts) -> (step: RunStep)
    ensures
        step@ == launch_step(runtime, target@, preset, *facts),
{
    let list = candidates(runtime);
    match locate(&list, &facts.probed) {
        Probe::Try(name) => RunStep::Probe(name),
        Probe::Absent => RunStep::Done(RunOutcome::NotInstalled(runtime)),
        Probe::Found(program) => match facts.exited {
            None => RunStep::Launch {
                runtime,
                target: String::from_str(target),
                program,
                arguments: launch_arguments(runtime, target, preset),
            },
            Some(true) => RunStep::Done(RunOutcome::Completed),
            Some(false) => RunStep::Fail(
                RunError::RuntimeFailed { runtime, target: String::from_str(target) },
            ),
        },
    }
}

/// The next step of running llama.cpp on the artifact at `model_path`.
pub fn run_with_llama_cpp(
    model_path: &str,
    preset: Option<&str>,
    facts: &RunFacts,
) -> (step: RunStep)
    ensures
        step@ == launch_step(
            Runtime::LlamaCpp,
            model_path@,
            preset_named(opt_text(preset)),
            *facts,
        ),
{
    launch(Runtime::LlamaCpp, model_path, parse_preset(preset), facts)
}

/// The next step of running Ollama on the model that it knows as
/// `reference`.
pub fn run_with_ollama(reference: &str, facts: &RunFacts) -> (step: RunStep)
    ensures
        step@ == launch_step(Runtime::Ollama, reference@, Preset::Default, *facts),
{
    launch(Runtime::Ollama, reference, Preset::Default, facts)
}

/// The next step of running llama.cpp on the model that the hub streams as
/// `reference`.
pub fn run_with_llama_hf(
    reference: &str,
    preset: Option<&str>,
    facts: &RunFacts,
) -> (step: RunStep)
    ensures
        step@ == launch_step(
            Runtime::LlamaHf,
            reference@,
            preset_named(opt_text(preset)),
            *facts,
        ),
{
    launch(Runtime::LlamaHf, reference, parse_preset(preset), facts)
}

/// The next step of a run of `model`, whose name in lowercase is `stem`, in
/// the quantization asked for, which in uppercase is `raised`.
pub fn advance(
    model: &str,
    stem: &str,
    raised: &str,
    runtime: Option<&str>,
    quant: Option<&str>,
    preset: Option<&str>,
    home: Option<&str>,
    facts: &RunFacts,
) -> (step: RunStep)
    ensures
        step@ == next_step(
            model@,
            stem@,
            raised@,
            opt_text(runtime),
            opt_text(quant),
            opt_text(preset),
            opt_text(home),
            *facts,
        ),
{
    if !validate(model) {
        return RunStep::Fail(RunError::UnknownModel(String::from_str(model)));
    }
    let runtime_name = match runtime {
        Some(r) => r,
        None => "llama-cpp",
    };
    let chosen = match parse_runtime(runtime_name) {
        Some(chosen) => chosen,
        None => {
            return RunStep::Fail(RunError::UnknownRuntime(String::from_str(runtime_name)));
        },
    };
    let home_dir = match home {
        Some(h) => h,
        None => {
            return RunStep::Fail(RunError::NoHomeDirectory);
        },
    };
    let yuuki_dir = join(home_dir, ".yuuki");
    let models_dir = join(yuuki_dir.as_str(), "models");
    if !facts.store_ready {
        return RunStep::OpenStore { yuuki_dir, models_dir };
    }
    let directory = model_dir(models_dir.as_str(), model);
    let tag = match quant {
        Some(q) => q,
        None => "q5_k_m",
    };
    let filename = filename_for(stem, tag);
    let artifact = join(directory.as_str(), filename.as_str());
    match facts.directory_exists {
        None => {
            return RunStep::CheckDirectory(directory);
        },
        Some(false) => {
            return RunStep::Done(RunOutcome::NotDownloaded);
        },
        Some(true) => {},
    }
    match facts.artifact_exists {
        None => {
            return RunStep::CheckFile { path: artifact, filename };
        },
        Some(false) => {
            return RunStep::Fail(
                RunError::ArtifactMissing { filename, model: String::from_str(model) },
            );
        },
        Some(true) => {},
    }
    match chosen {
        Runtime::LlamaCpp => run_with_llama_cpp(artifact.as_str(), preset, facts),
        Runtime::LlamaHf => {
            let on = reference(HF_ORG, model, raised);
            run_with_llama_hf(on.as_str(), preset, facts)
        },
        Runtime::Ollama => {
            let on = reference(OLLAMA_ORG, stem, tag);
            let step = run_with_ollama(on.as_str(), facts);
            assert(arguments_of(Runtime::Ollama, on@, Preset::Default) == arguments_of(
                Runtime::Ollama,
                on@,
                preset_named(opt_text(preset)),
            ));
            step
        },
    }
}

/// The next step of `run <model>` with the options given, for a user whose
/// home directory is `home`. The artifact's file name and Ollama's
/// reference hold the model's name in lowercase, the hub's reference the
/// quantization in uppercase.
pub fn execute(
    model: &str,
    runtime: Option<&str>,
    quant: Option<&str>,
    preset: Option<&str>,
    home: Option<&str>,
    facts: &RunFacts,
) -> (step: RunStep)
    ensures
        step@ == next_step(
            model@,
            lowercase_of(model@),
            uppercase_of(quant_or_default(opt_text(quant))),
            opt_text(runtime),
            opt_text(quant),
            opt_text(preset),
            opt_text(home),
            *facts,
        ),
{
    let stem = lowercase(model);
    let raised = match quant {
        Some(q) => uppercase(q),
        None => uppercase("q5_k_m"),
    };
    advance(model, stem.as_str(), raised.as_str(), runtime, quant, preset, home, facts)
}

/// A run with a runtime that does not exist fails at once, naming the
/// runtime, whatever the store holds and whatever else is known: it is a
/// failure of validation, and nothing is opened, looked up, tried or
/// started for it.
pub proof fn unknown_runtime_fails_at_once(
    model: Seq<char>,
    stem: Seq<char>,
    raised: Seq<char>,
    runtime: Option<Seq<char>>,
    quant: Option<Seq<char>>,
    preset: Option<Seq<char>>,
    home: Option<Seq<char>>,
    facts: RunFacts,
)
    requires
        known_model(model),
        runtime_named(runtime_or_default(runtime)) is None,
    ensures
        next_step(model, stem, raised, runtime, quant, preset, home, facts) == RunStepView::Fail(
            RunErrorView::UnknownRuntime(runtime_or_default(runtime)),
        ),
{
}

/// A run touches nothing before the model and the runtime are known ones:
/// every step that is no failure has a known model and a runtime's name
/// behind it.
pub proof fn nothing_is_touched_before_validation(
    model: Seq<char>,
    stem: Seq<char>,
    raised: Seq<char>,
    runtime: Option<Seq<char>>,
    quant: Option<Seq<char>>,
    preset: Option<Seq<char>>,
    home: Option<Seq<char>>,
    facts: RunFacts,
)
    requires
        !(next_step(model, stem, raised, runtime, quant, preset, home, facts) is Fail),
    ensures
        known_model(model),
        runtime_named(runtime_or_default(runtime)) is Some,
{
}

/// A run starts nothing for a runtime that does not exist: where the name
/// asked for is no runtime's, no step tries or starts a program, whatever
/// the model and whatever else is known.
pub proof fn unknown_runtime_starts_nothing(
    model: Seq<char>,
    stem: Seq<char>,
    raised: Seq<char>,
    runtime: Option<Seq<char>>,
    quant: Option<Seq<char>>,
    preset: Option<Seq<char>>,
    home: Option<Seq<char>>,
    facts: RunFacts,
)
    requires
        runtime_named(runtime_or_default(runtime)) is None,
    ensures
        !(next_step(model, stem, raised, runtime, quant, preset, home, facts) is Probe),
        !(next_step(model, stem, raised, runtime, quant, preset, home, facts) is Launch),
{
}

/// A run touches nothing for a model that does not exist: whatever else is
/// known, it fails at once, naming the model.
pub proof fn unknown_model_touches_nothing(
    model: Seq<char>,
    stem: Seq<char>,
    raised: Seq<char>,
    runtime: Option<Seq<char>>,
    quant: Option<Seq<char>>,
    preset: Option<Seq<char>>,
    home: Option<Seq<char>>,
    facts: RunFacts,
)
    requires
        !known_model(model),
    ensures
        next_step(model, stem, raised, runtime, quant, preset, home, facts) == RunStepView::Fail(
            RunErrorView::UnknownModel(model),
        ),
{
}

/// A program is started only on an artifact that is there: a step that
/// tries or starts a program has a known model, an open store, and a
/// directory and a file that were found to exist.
pub proof fn nothing_starts_without_the_artifact(
    model: Seq<char>,
    stem: Seq<char>,
    raised: Seq<char>,
    runtime: Option<Seq<char>>,
    quant: Option<Seq<char>>,
    preset: Option<Seq<char>>,
    home: Option<Seq<char>>,
    facts: RunFacts,
)
    requires
        next_step(model, stem, raised, runtime, quant, preset, home, facts) is Launch || next_step(
            model,
            stem,
            raised,
            runtime,
            quant,
            preset,
            home,
            facts,
        ) is Probe,
    ensures
        known_model(model),
        facts.store_ready,
        facts.directory_exists == Some(true),
        facts.artifact_exists == Some(true),
        runtime_named(runtime_or_default(runtime)) is Some,
{
}

/// A run asks only for what is not known yet, so that each answer brings
/// it further: the store is opened while it is not open, a directory or a
/// file is looked up while nothing is known of it, a candidate is tried
/// that comes right after those tried so far, and a program is started
/// while none has ended.
pub proof fn asks_only_for_what_is_unknown(
    model: Seq<char>,
    stem: Seq<char>,
    raised: Seq<char>,
    runtime: Option<Seq<char>>,
    quant: Option<Seq<char>>,
    preset: Option<Seq<char>>,
    home: Option<Seq<char>>,
    facts: RunFacts,
)
    ensures
        match next_step(model, stem, raised, runtime, quant, preset, home, facts) {
            RunStepView::OpenStore { .. } => !facts.store_ready,
            RunStepView::CheckDirectory(_) => facts.directory_exists is None,
            RunStepView::CheckFile { .. } => facts.artifact_exists is None,
            RunStepView::Probe(name) => {
                let chosen = runtime_named(runtime_or_default(runtime)).unwrap();
                &&& facts.probed@.len() < candidate_names(chosen).len()
                &&& name == candidate_names(chosen)[facts.probed@.len() as int]
            },
            RunStepView::Launch { .. } => facts.exited is None,
            _ => true,
        },
{
    let step = next_step(model, stem, raised, runtime, quant, preset, home, facts);
    if step is Probe {
        let chosen = runtime_named(runtime_or_default(runtime)).unwrap();
        first_found_wins(candidate_names(chosen), facts.probed@);
    }
}

} // verus!
