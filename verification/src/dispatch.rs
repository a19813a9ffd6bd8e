//! The runtimes that can execute a model, how an installed one is found, and
//! the arguments with which it is started.

use crate::text::{names, same_text, texts};
use vstd::prelude::*;

verus! {

/// A program that executes a model.
#[derive(Debug, Clone, Copy, PartialEq, Eq, Structural)]
pub enum Runtime {
    /// llama.cpp on a downloaded artifact.
    LlamaCpp,
    /// llama.cpp streaming the model from the hub.
    LlamaHf,
    /// Ollama.
    Ollama,
}

/// What a look at the installed programs is to find out.
#[derive(Debug, Clone, Copy, PartialEq, Eq, Structural)]
pub enum Wanted {
    /// Whether llama.cpp is installed, under one of its names.
    Llama,
    /// Whether Ollama is installed.
    Ollama,
    /// Whether Homebrew is installed.
    Homebrew,
    /// Whether one of the tools that the check-up looks for is installed.
    Tool,
}

/// A named choice of generation parameters.
#[derive(Debug, Clone, Copy, PartialEq, Eq, Structural)]
pub enum Preset {
    Creative,
    Precise,
    Balanced,
    /// No preset was asked for.
    Default,
}

/// The generation parameters, as they are written on a command line.
#[derive(Debug, Clone, Copy, PartialEq, Eq)]
pub struct Sampling {
    pub temperature: &'static str,
    pub top_p: &'static str,
}

/// What the search for an installed program has come to.
#[derive(Debug, Clone, Copy, PartialEq, Eq)]
pub enum Probe {
    /// Whether a program of this name is installed has yet to be found out.
    Try(&'static str),
    /// A program of this name is installed.
    Found(&'static str),
    /// None of the candidates is installed.
    Absent,
}

/// A `Probe` as plain values.
pub enum ProbeView {
    Try(Seq<char>),
    Found(Seq<char>),
    Absent,
}

impl View for Probe {
    type V = ProbeView;

    open spec fn view(&self) -> ProbeView {
        match self {
            Probe::Try(name) => ProbeView::Try(name@),
            Probe::Found(name) => ProbeView::Found(name@),
            Probe::Absent => ProbeView::Absent,
        }
    }
}

/// The runtime that the user calls `name`, if there is one.
pub open spec fn runtime_named(name: Seq<char>) -> Option<Runtime> {
    if name == "llama-cpp"@ {
        Some(Runtime::LlamaCpp)
    } else if name == "llama-hf"@ {
        Some(Runtime::LlamaHf)
    } else if name == "ollama"@ {
        Some(Runtime::Ollama)
    } else {
        None
    }
}

/// The preset that the user calls `name`. A name that is none of
/// `creative`, `precise` and `balanced` stands for the balanced preset.
pub open spec fn preset_named(name: Option<Seq<char>>) -> Preset {
    match name {
        None => Preset::Default,
        Some(n) => if n == "creative"@ {
            Preset::Creative
        } else if n == "precise"@ {
            Preset::Precise
        } else {
            Preset::Balanced
        },
    }
}

/// The temperature of a preset.
pub open spec fn temperature_of(preset: Preset) -> Seq<char> {
    match preset {
        Preset::Creative => "0.8"@,
        Preset::Precise => "0.3"@,
        Preset::Balanced => "0.6"@,
        Preset::Default => "0.6"@,
    }
}

/// The nucleus threshold of a preset.
pub open spec fn top_p_of(preset: Preset) -> Seq<char> {
    match preset {
        Preset::Creative => "0.9"@,
        Preset::Precise => "0.5"@,
        Preset::Balanced => "0.7"@,
        Preset::Default => "0.7"@,
    }
}

/// The names under which a runtime's program may be installed, in the order
/// in which they are tried.
pub open spec fn candidate_names(runtime: Runtime) -> Seq<Seq<char>> {
    match runtime {
        Runtime::LlamaCpp => seq!["llama-cli"@, "llama"@, "main"@],
        Runtime::LlamaHf => seq!["llama-cli"@],
        Runtime::Ollama => seq!["ollama"@],
    }
}

/// The first of the answers from `from` on that says "installed".
pub open spec fn first_hit(probed: Seq<bool>, from: int) -> Option<int>
    decreases probed.len() - from,
{
    if from < 0 || from >= probed.len() {
        None
    } else if probed[from] {
        Some(from)
    } else {
        first_hit(probed, from + 1)
    }
}

/// Where the search stands when the first candidates have been tried with
/// the answers `probed`: the first candidate found installed wins; failing
/// that, the next untried candidate is to be tried; failing that, none is
/// installed. Answers beyond the candidates are not looked at.
pub open spec fn search(candidates: Seq<Seq<char>>, probed: Seq<bool>) -> ProbeView {
    let tried = if probed.len() <= candidates.len() {
        probed
    } else {
        probed.take(candidates.len() as int)
    };
    match first_hit(tried, 0) {
        Some(i) => ProbeView::Found(candidates[i]),
        None => if tried.len() < candidates.len() {
            ProbeView::Try(candidates[tried.len() as int])
        } else {
            ProbeView::Absent
        },
    }
}

/// The arguments with which `runtime` is started on `target`: for llama.cpp
/// the artifact's path, for the other two the model's reference.
pub open spec fn arguments_of(
    runtime: Runtime,
    target: Seq<char>,
    preset: Preset,
) -> Seq<Seq<char>> {
    match runtime {
        Runtime::LlamaCpp => seq![
            "-m"@,
            target,
            "--interactive"@,
            "--temp"@,
            temperature_of(preset),
            "--top-p"@,
            top_p_of(preset),
            "-c"@,
            "4096"@,
        ],
        Runtime::LlamaHf => seq![
            "-hf"@,
            target,
            "--temp"@,
            temperature_of(preset),
            "--top-p"@,
            top_p_of(preset),
            "-c"@,
            "4096"@,
        ],
        Runtime::Ollama => seq!["run"@, target],
    }
}

/// The runtime that the user calls `name`.
pub fn parse_runtime(name: &str) -> (runtime: Option<Runtime>)
    ensures
        runtime == runtime_named(name@),
{
    if same_text(name, "llama-cpp") {
        Some(Runtime::LlamaCpp)
    } else if same_text(name, "llama-hf") {
        Some(Runtime::LlamaHf)
    } else if same_text(name, "ollama") {
        Some(Runtime::Ollama)
    } else {
        None
    }
}

/// The preset that the user calls `name`.
pub fn parse_preset(name: Option<&str>) -> (preset: Preset)
    ensures
        preset == preset_named(
            match name {
                Some(n) => Some(n@),
                None => None,
            },
        ),
{
    match name {
        None => Preset::Default,
        Some(n) => {
            if same_text(n, "creative") {
                Preset::Creative
            } else if same_text(n, "precise") {
                Preset::Precise
            } else {
                Preset::Balanced
            }
        },
    }
}

/// The generation parameters of a preset.
pub fn sampling(preset: Preset) -> (values: Sampling)
    ensures
        values.temperature@ == temperature_of(preset),
        values.top_p@ == top_p_of(preset),
{
    match preset {
        Preset::Creative => Sampling { temperature: "0.8", top_p: "0.9" },
        Preset::Precise => Sampling { temperature: "0.3", top_p: "0.5" },
        Preset::Balanced => Sampling { temperature: "0.6", top_p: "0.7" },
        Preset::Default => Sampling { temperature: "0.6", top_p: "0.7" },
    }
}

/// The names under which a runtime's program may be installed.
pub fn candidates(runtime: Runtime) -> (list: Vec<&'static str>)
    ensures
        names(list@) == candidate_names(runtime),
{
    let list = match runtime {
        Runtime::LlamaCpp => vec!["llama-cli", "llama", "main"],
        Runtime::LlamaHf => vec!["llama-cli"],
        Runtime::Ollama => vec!["ollama"],
    };
    assert(names(list@) =~= candidate_names(runtime));
    list
}

/// Where the search for an installed program stands.
pub fn locate(candidates: &Vec<&'static str>, probed: &Vec<bool>) -> (probe: Probe)
    ensures
        probe@ == search(names(candidates@), probed@),
{
    let ghost tried = if probed@.len() <= candidates@.len() {
        probed@
    } else {
        probed@.take(candidates@.len() as int)
    };
    let upto: usize = if probed.len() <= candidates.len() {
        probed.len()
    } else {
        candidates.len()
    };
    let mut i: usize = 0;
    while i < upto
        invariant
            i <= upto,
            upto == tried.len(),
            upto <= candidates.len(),
            upto <= probed.len(),
            tried == if probed@.len() <= candidates@.len() {
                probed@
            } else {
                probed@.take(candidates@.len() as int)
            },
            first_hit(tried, 0) == first_hit(tried, i as int),
        decreases upto - i,
    {
        if probed[i] {
            return Probe::Found(candidates[i]);
        }
        i += 1;
    }
    if upto < candidates.len() {
        Probe::Try(candidates[upto])
    } else {
        Probe::Absent
    }
}

/// Where a first hit is found, it is a hit and nothing before it is.
pub proof fn lemma_first_hit(probed: Seq<bool>, from: int)
    requires
        0 <= from,
    ensures
        match first_hit(probed, from) {
            Some(i) => from <= i < probed.len() && probed[i] && forall|j: int|
                from <= j < i ==> !probed[j],
            None => forall|j: int| from <= j < probed.len() ==> !probed[j],
        },
    decreases probed.len() - from,
{
    if from < probed.len() && !probed[from] {
        lemma_first_hit(probed, from + 1);
    }
}

/// The first candidate found installed wins, and no candidate is tried
/// before those ahead of it: a search that has found a program has an
/// answer "installed" for it and "not installed" for every candidate before
/// it; a search that is to try a candidate, or that has given up, has "not
/// installed" for every candidate so far.
pub proof fn first_found_wins(candidates: Seq<Seq<char>>, probed: Seq<bool>)
    ensures
        match search(candidates, probed) {
            ProbeView::Found(name) => exists|i: int|
                0 <= i < candidates.len() && i < probed.len() && name == candidates[i]
                    && probed[i] && forall|j: int| 0 <= j < i ==> !probed[j],
            ProbeView::Try(name) => probed.len() < candidates.len() && name
                == candidates[probed.len() as int] && forall|j: int|
                0 <= j < probed.len() ==> !probed[j],
            ProbeView::Absent => probed.len() >= candidates.len() && forall|j: int|
                0 <= j < candidates.len() ==> !probed[j],
        },
{
    let tried = if probed.len() <= candidates.len() {
        probed
    } else {
        probed.take(candidates.len() as int)
    };
    lemma_first_hit(tried, 0);
    match first_hit(tried, 0) {
        Some(i) => {
            assert(0 <= i < candidates.len() && i < probed.len() && probed[i] && forall|j: int|
                0 <= j < i ==> !probed[j]) by {
                assert forall|j: int| 0 <= j < i implies !probed[j] by {
                    assert(tried[j] == probed[j]);
                }
            }
        },
        None => {
            assert forall|j: int| 0 <= j < tried.len() implies !probed[j] by {
                assert(tried[j] == probed[j]);
            }
        },
    }
}

/// The arguments with which `runtime` is started on `target`.
pub fn launch_arguments(runtime: Runtime, target: &str, preset: Preset) -> (arguments: Vec<String>)
    ensures
        texts(arguments@) == arguments_of(runtime, target@, preset),
{
    let values = sampling(preset);
    let mut arguments: Vec<String> = Vec::new();
    match runtime {
        Runtime::LlamaCpp => {
            arguments.push(String::from_str("-m"));
            arguments.push(String::from_str(target));
            arguments.push(String::from_str("--interactive"));
            arguments.push(String::from_str("--temp"));
            arguments.push(String::from_str(values.temperature));
            arguments.push(String::from_str("--top-p"));
            arguments.push(String::from_str(values.top_p));
            arguments.push(String::from_str("-c"));
            arguments.push(String::from_str("4096"));
        },
        Runtime::LlamaHf => {
            arguments.push(String::from_str("-hf"));
            arguments.push(String::from_str(target));
            arguments.push(String::from_str("--temp"));
            arguments.push(String::from_str(values.temperature));
            arguments.push(String::from_str("--top-p"));
            arguments.push(String::from_str(values.top_p));
            arguments.push(String::from_str("-c"));
            arguments.push(String::from_str("4096"));
        },
        Runtime::Ollama => {
            arguments.push(String::from_str("run"));
            arguments.push(String::from_str(target));
        },
    }
    assert(texts(arguments@) =~= arguments_of(runtime, target@, preset));
    arguments
}

} // verus!
