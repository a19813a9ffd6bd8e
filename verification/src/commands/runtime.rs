//! `runtime`: say which runtimes are installed, install one, or describe
//! those that exist.

use crate::cli::RuntimeAction;
use crate::dispatch::{
    candidate_names, candidates, first_found_wins, locate, search, Probe, ProbeView, Runtime,
    Wanted,
};
use crate::error::ErrorKind;
use crate::platform::{detect_platform, platform_of, Platform};
use crate::text::{opt_text, same_text, text_of, texts, trimmed, trimmed_of};
use vstd::prelude::*;

verus! {

/// What a program said when asked for its version.
#[derive(Debug, Clone, PartialEq, Eq)]
pub enum VersionAnswer {
    /// The program could not be started, or what it printed is no text.
    Unavailable,
    /// The version: what the program printed, as `version_line` gives it.
    Line(String),
}

/// What the user picked when asked for a runtime to install.
#[derive(Debug, Clone, Copy, PartialEq, Eq, Structural)]
pub enum Choice {
    LlamaCpp,
    Ollama,
    /// Neither of the two on offer.
    Invalid,
}

/// What is known so far of a runtime command.
#[derive(Debug, Clone, PartialEq, Eq)]
pub struct RuntimeFacts {
    /// Whether the candidates of llama.cpp are installed, in their order, as
    /// far as they have been tried.
    pub llama: Vec<bool>,
    /// What `llama-cli` says of its version, once asked.
    pub llama_version: Option<VersionAnswer>,
    /// Whether Ollama is installed, once that has been tried.
    pub ollama: Option<bool>,
    /// What `ollama` says of its version, once asked.
    pub ollama_version: Option<VersionAnswer>,
    /// What the user picked when asked for a runtime, once asked.
    pub choice: Option<Choice>,
    /// Whether Homebrew is installed, once that has been tried.
    pub brew: Option<bool>,
    /// Whether the package manager ended with success, once it has ended.
    pub installer_succeeded: Option<bool>,
}

/// Whether a runtime is installed, and in which version.
#[derive(Debug, Clone, PartialEq, Eq)]
pub struct RuntimeStatus {
    pub installed: bool,
    /// The version, where the program was asked and answered.
    pub version: Option<String>,
}

/// A `RuntimeStatus` as plain values.
pub struct RuntimeStatusView {
    pub installed: bool,
    pub version: Option<Seq<char>>,
}

impl View for RuntimeStatus {
    type V = RuntimeStatusView;

    open spec fn view(&self) -> RuntimeStatusView {
        RuntimeStatusView { installed: self.installed, version: text_of(self.version) }
    }
}

/// Which instructions lead to a runtime by hand.
#[derive(Debug, Clone, Copy, PartialEq, Eq, Structural)]
pub enum Manual {
    /// llama.cpp on Linux: a binary to download, or the source to build.
    LlamaCppLinux,
    /// Ollama on Linux: its install script.
    OllamaLinux,
    /// Anything else: the runtime's website.
    Website,
}

/// What a runtime command shows.
#[derive(Debug, Clone, PartialEq, Eq)]
pub enum RuntimeReport {
    /// Which runtimes are installed. Where none is, installing one is
    /// advised.
    Checked { llama: RuntimeStatus, ollama: RuntimeStatus, none_installed: bool },
    /// The user picked neither of the two runtimes on offer.
    InvalidChoice,
    /// The package manager has installed the runtime.
    Installed { runtime: String },
    /// The runtime is to be installed by hand on this platform.
    Guidance { platform: Platform, manual: Manual },
    /// On Windows nothing is installed; the user is told where to turn.
    WindowsNotes,
    /// The runtimes that exist.
    Catalog,
}

/// A `RuntimeReport` as plain values.
pub enum RuntimeReportView {
    Checked { llama: RuntimeStatusView, ollama: RuntimeStatusView, none_installed: bool },
    InvalidChoice,
    Installed { runtime: Seq<char> },
    Guidance { platform: Platform, manual: Manual },
    WindowsNotes,
    Catalog,
}

impl View for RuntimeReport {
    type V = RuntimeReportView;

    open spec fn view(&self) -> RuntimeReportView {
        match self {
            RuntimeReport::Checked { llama, ollama, none_installed } => RuntimeReportView::Checked {
                llama: llama@,
                ollama: ollama@,
                none_installed: *none_installed,
            },
            RuntimeReport::InvalidChoice => RuntimeReportView::InvalidChoice,
            RuntimeReport::Installed { runtime } => RuntimeReportView::Installed {
                runtime: runtime@,
            },
            RuntimeReport::Guidance { platform, manual } => RuntimeReportView::Guidance {
                platform: *platform,
                manual: *manual,
            },
            RuntimeReport::WindowsNotes => RuntimeReportView::WindowsNotes,
            RuntimeReport::Catalog => RuntimeReportView::Catalog,
        }
    }
}

/// Why a runtime command failed.
#[derive(Debug, Clone, PartialEq, Eq)]
pub enum RuntimeError {
    /// There is no runtime of this name to install.
    UnknownRuntime(String),
    /// The package manager ended with a failure.
    InstallFailed,
}

/// A `RuntimeError` as plain values.
pub enum RuntimeErrorView {
    UnknownRuntime(Seq<char>),
    InstallFailed,
}

impl View for RuntimeError {
    type V = RuntimeErrorView;

    open spec fn view(&self) -> RuntimeErrorView {
        match self {
            RuntimeError::UnknownRuntime(name) => RuntimeErrorView::UnknownRuntime(name@),
            RuntimeError::InstallFailed => RuntimeErrorView::InstallFailed,
        }
    }
}

/// The next step of a runtime command.
#[derive(Debug, Clone, PartialEq, Eq)]
pub enum RuntimeStep {
    /// Find out whether a program of this name is installed, and add the
    /// answer to what is known of `wanted`.
    Probe { name: &'static str, wanted: Wanted },
    /// Ask this program for its version, and record the answer as that of
    /// `wanted`.
    QueryVersion { program: &'static str, wanted: Wanted },
    /// Ask the user to pick a runtime: 1 for llama.cpp, 2 for Ollama.
    AskChoice,
    /// Start this package manager with these arguments and wait for it.
    Run { program: &'static str, arguments: Vec<String> },
    /// The command is over.
    Done(RuntimeReport),
    /// The command failed.
    Fail(RuntimeError),
}

/// A `RuntimeStep` as plain values.
pub enum RuntimeStepView {
    Probe { name: Seq<char>, wanted: Wanted },
    QueryVersion { program: Seq<char>, wanted: Wanted },
    AskChoice,
    Run { program: Seq<char>, arguments: Seq<Seq<char>> },
    Done(RuntimeReportView),
    Fail(RuntimeErrorView),
}

impl View for RuntimeStep {
    type V = RuntimeStepView;

    open spec fn view(&self) -> RuntimeStepView {
        match self {
            RuntimeStep::Probe { name, wanted } => RuntimeStepView::Probe {
                name: name@,
                wanted: *wanted,
            },
            RuntimeStep::QueryVersion { program, wanted } => RuntimeStepView::QueryVersion {
                program: program@,
                wanted: *wanted,
            },
            RuntimeStep::AskChoice => RuntimeStepView::AskChoice,
            RuntimeStep::Run { program, arguments } => RuntimeStepView::Run {
                program: program@,
                arguments: texts(arguments@),
            },
            RuntimeStep::Done(report) => RuntimeStepView::Done(report@),
            RuntimeStep::Fail(error) => RuntimeStepView::Fail(error@),
        }
    }
}

/// The version in an answer, if it holds one.
pub open spec fn version_in(answer: Option<VersionAnswer>) -> Option<Seq<char>> {
    match answer {
        Some(VersionAnswer::Line(text)) => Some(text@),
        _ => None,
    }
}

/// What an answer to the picker stands for, once the whitespace at its ends
/// is gone: `1` is llama.cpp and `2` is Ollama.
pub open spec fn choice_of(answer: Seq<char>) -> Choice {
    if answer == "1"@ {
        Choice::LlamaCpp
    } else if answer == "2"@ {
        Choice::Ollama
    } else {
        Choice::Invalid
    }
}

/// The name of the runtime that was picked, if one was.
pub open spec fn picked_name(choice: Choice) -> Option<Seq<char>> {
    match choice {
        Choice::LlamaCpp => Some("llama-cpp"@),
        Choice::Ollama => Some("ollama"@),
        Choice::Invalid => None,
    }
}

/// The package that holds a runtime on Termux.
pub open spec fn termux_package(runtime: Seq<char>) -> Option<Seq<char>> {
    if runtime == "llama-cpp"@ {
        Some("llama-cpp"@)
    } else if runtime == "ollama"@ {
        Some("ollama"@)
    } else {
        None
    }
}

/// The formula that holds a runtime in Homebrew.
pub open spec fn brew_package(runtime: Seq<char>) -> Option<Seq<char>> {
    if runtime == "llama-cpp"@ {
        Some("llama.cpp"@)
    } else if runtime == "ollama"@ {
        Some("ollama"@)
    } else {
        None
    }
}

/// The instructions that lead to a runtime by hand on a platform.
pub open spec fn manual_of(runtime: Seq<char>, platform: Platform) -> Manual {
    if platform == Platform::Linux && runtime == "llama-cpp"@ {
        Manual::LlamaCppLinux
    } else if platform == Platform::Linux && runtime == "ollama"@ {
        Manual::OllamaLinux
    } else {
        Manual::Website
    }
}

/// The step that a package manager's run has come to.
pub open spec fn installer_step(
    program: Seq<char>,
    arguments: Seq<Seq<char>>,
    runtime: Seq<char>,
    succeeded: Option<bool>,
) -> RuntimeStepView {
    match succeeded {
        None => RuntimeStepView::Run { program, arguments },
        Some(true) => RuntimeStepView::Done(RuntimeReportView::Installed { runtime }),
        Some(false) => RuntimeStepView::Fail(RuntimeErrorView::InstallFailed),
    }
}

/// The next step of a check, by what is known so far. The candidates of
/// llama.cpp are tried until one is found installed; `llama-cli`, where it
/// is the one, is asked for its version; Ollama is tried, and asked for its
/// version where it is installed.
pub open spec fn check_step(facts: RuntimeFacts) -> RuntimeStepView {
    let llama = search(candidate_names(Runtime::LlamaCpp), facts.llama@);
    let asked = llama == ProbeView::Found("llama-cli"@);
    if llama is Try {
        RuntimeStepView::Probe { name: llama->Try_0, wanted: Wanted::Llama }
    } else if asked && facts.llama_version is None {
        RuntimeStepView::QueryVersion { program: "llama-cli"@, wanted: Wanted::Llama }
    } else if facts.ollama is None {
        RuntimeStepView::Probe { name: "ollama"@, wanted: Wanted::Ollama }
    } else if facts.ollama.unwrap() && facts.ollama_version is None {
        RuntimeStepView::QueryVersion { program: "ollama"@, wanted: Wanted::Ollama }
    } else {
        RuntimeStepView::Done(
            RuntimeReportView::Checked {
                llama: RuntimeStatusView {
                    installed: llama is Found,
                    version: if asked {
                        version_in(facts.llama_version)
                    } else {
                        None
                    },
                },
                ollama: RuntimeStatusView {
                    installed: facts.ollama.unwrap(),
                    version: if facts.ollama.unwrap() {
                        version_in(facts.ollama_version)
                    } else {
                        None
                    },
                },
                none_installed: !(llama is Found) && !facts.ollama.unwrap(),
            },
        )
    }
}

/// The next step of installing the runtime `runtime` on `platform`, by what
/// is known so far. On Termux and, where Homebrew is installed, on macOS the
/// package manager is run; a runtime that it has no package for fails the
/// command. Elsewhere the user is told how to install by hand.
pub open spec fn install_step(runtime: Seq<char>, platform: Platform, facts: RuntimeFacts)
    -> RuntimeStepView {
    match platform {
        Platform::Termux => match termux_package(runtime) {
            None => RuntimeStepView::Fail(RuntimeErrorView::UnknownRuntime(runtime)),
            Some(package) => installer_step(
                "pkg"@,
                seq!["install"@, package, "-y"@],
                runtime,
                facts.installer_succeeded,
            ),
        },
        Platform::MacOS => if facts.brew is None {
            RuntimeStepView::Probe { name: "brew"@, wanted: Wanted::Homebrew }
        } else if !facts.brew.unwrap() {
            RuntimeStepView::Done(
                RuntimeReportView::Guidance { platform, manual: manual_of(runtime, platform) },
            )
        } else {
            match brew_package(runtime) {
                None => RuntimeStepView::Fail(RuntimeErrorView::UnknownRuntime(runtime)),
                Some(package) => installer_step(
                    "brew"@,
                    seq!["install"@, package],
                    runtime,
                    facts.installer_succeeded,
                ),
            }
        },
        Platform::Windows => RuntimeStepView::Done(RuntimeReportView::WindowsNotes),
        _ => RuntimeStepView::Done(
            RuntimeReportView::Guidance { platform, manual: manual_of(runtime, platform) },
        ),
    }
}

/// The next step of a runtime command, by what is known so far. Where an
/// installation names no runtime, the user is asked to pick one first.
pub open spec fn next_step(
    action: RuntimeAction,
    os: Seq<char>,
    prefix: Option<Seq<char>>,
    facts: RuntimeFacts,
) -> RuntimeStepView {
    match action {
        RuntimeAction::Check => check_step(facts),
        RuntimeAction::List => RuntimeStepView::Done(RuntimeReportView::Catalog),
        RuntimeAction::Install { runtime } => match runtime {
            Some(name) => install_step(name@, platform_of(os, prefix), facts),
            None => match facts.choice {
                None => RuntimeStepView::AskChoice,
                Some(choice) => match picked_name(choice) {
                    None => RuntimeStepView::Done(RuntimeReportView::InvalidChoice),
                    Some(name) => install_step(name, platform_of(os, prefix), facts),
                },
            },
        },
    }
}

/// The message of a failure.
pub open spec fn message_text(error: RuntimeErrorView) -> Seq<char> {
    match error {
        RuntimeErrorView::UnknownRuntime(name) => "Unknown runtime: "@ + name,
        RuntimeErrorView::InstallFailed => "Installation failed"@,
    }
}

impl RuntimeError {
    /// The class of the failure.
    pub fn kind(&self) -> (kind: ErrorKind)
        ensures
            kind == (match self@ {
                RuntimeErrorView::UnknownRuntime(_) => ErrorKind::Validation,
                RuntimeErrorView::InstallFailed => ErrorKind::Process,
            }),
    {
        match self {
            RuntimeError::UnknownRuntime(_) => ErrorKind::Validation,
            RuntimeError::InstallFailed => ErrorKind::Process,
        }
    }

    /// The failure in words.
    pub fn message(&self) -> (text: String)
        ensures
            text@ == message_text(self@),
    {
        match self {
            RuntimeError::UnknownRuntime(name) => {
                let mut text = String::from_str("Unknown runtime: ");
                text.append(name.as_str());
                text
            },
            RuntimeError::InstallFailed => String::from_str("Installation failed"),
        }
    }
}

/// The version in an answer.
fn version_of(answer: &Option<VersionAnswer>) -> (version: Option<String>)
    ensures
        text_of(version) == version_in(*answer),
{
    match answer {
        Some(VersionAnswer::Line(text)) => Some(text.clone()),
        _ => None,
    }
}

/// The version in what a program printed: the text without the whitespace
/// at its ends.
pub fn version_line(printed: &str) -> (line: String)
    ensures
        line@ == trimmed_of(printed@),
{
    String::from_str(trimmed(printed))
}

/// What an answer to the picker stands for, once the whitespace at its ends
/// is gone.
pub fn pick(answer: &str) -> (choice: Choice)
    ensures
        choice == choice_of(answer@),
{
    if same_text(answer, "1") {
        Choice::LlamaCpp
    } else if same_text(answer, "2") {
        Choice::Ollama
    } else {
        Choice::Invalid
    }
}

/// What an answer to the picker stands for: `1` is llama.cpp and `2` is
/// Ollama, whitespace at the ends aside; anything else is no choice.
pub fn read_choice(answer: &str) -> (choice: Choice)
    ensures
        choice == choice_of(trimmed_of(answer@)),
{
    pick(trimmed(answer))
}

/// The instructions that lead to a runtime by hand on a platform.
pub fn show_manual_instructions(runtime: &str, platform: Platform) -> (manual: Manual)
    ensures
        manual == manual_of(runtime@, platform),
{
    match platform {
        Platform::Linux => {
            if same_text(runtime, "llama-cpp") {
                Manual::LlamaCppLinux
            } else if same_text(runtime, "ollama") {
                Manual::OllamaLinux
            } else {
                Manual::Website
            }
        },
        _ => Manual::Website,
    }
}

/// The step that a package manager's run has come to.
fn installer(
    program: &'static str,
    arguments: Vec<String>,
    runtime: &str,
    succeeded: Option<bool>,
) -> (step: RuntimeStep)
    ensures
        step@ == installer_step(program@, texts(arguments@), runtime@, succeeded),
{
    match succeeded {
        None => RuntimeStep::Run { program, arguments },
        Some(true) => RuntimeStep::Done(
            RuntimeReport::Installed { runtime: String::from_str(runtime) },
        ),
        Some(false) => RuntimeStep::Fail(RuntimeError::InstallFailed),
    }
}

/// The next step of a check.
pub fn check_runtimes(facts: &RuntimeFacts) -> (step: RuntimeStep)
    ensures
        step@ == check_step(*facts),
{
    let list = candidates(Runtime::LlamaCpp);
    let (llama_installed, asked) = match locate(&list, &facts.llama) {
        Probe::Try(name) => {
            return RuntimeStep::Probe { name, wanted: Wanted::Llama };
        },
        Probe::Found(name) => (true, same_text(name, "llama-cli")),
        Probe::Absent => (false, false),
    };
    if asked && facts.llama_version.is_none() {
        return RuntimeStep::QueryVersion { program: "llama-cli", wanted: Wanted::Llama };
    }
    let ollama_installed = match facts.ollama {
        None => {
            return RuntimeStep::Probe { name: "ollama", wanted: Wanted::Ollama };
        },
        Some(found) => found,
    };
    if ollama_installed && facts.ollama_version.is_none() {
        return RuntimeStep::QueryVersion { program: "ollama", wanted: Wanted::Ollama };
    }
    let llama = RuntimeStatus {
        installed: llama_installed,
        version: if asked {
            version_of(&facts.llama_version)
        } else {
            None
        },
    };
    let ollama = RuntimeStatus {
        installed: ollama_installed,
        version: if ollama_installed {
            version_of(&facts.ollama_version)
        } else {
            None
        },
    };
    RuntimeStep::Done(
        RuntimeReport::Checked {
            llama,
            ollama,
            none_installed: !llama_installed && !ollama_installed,
        },
    )
}

/// The next step of installing `runtime` on Termux.
pub fn install_on_termux(runtime: &str, facts: &RuntimeFacts) -> (step: RuntimeStep)
    ensures
        step@ == install_step(runtime@, Platform::Termux, *facts),
{
    let package = if same_text(runtime, "llama-cpp") {
        "llama-cpp"
    } else if same_text(runtime, "ollama") {
        "ollama"
    } else {
        return RuntimeStep::Fail(RuntimeError::UnknownRuntime(String::from_str(runtime)));
    };
    let mut arguments: Vec<String> = Vec::new();
    arguments.push(String::from_str("install"));
    arguments.push(String::from_str(package));
    arguments.push(String::from_str("-y"));
    assert(texts(arguments@) =~= seq!["install"@, package@, "-y"@]);
    installer("pkg", arguments, runtime, facts.installer_succeeded)
}

/// The next step of installing `runtime` on Linux: the user is told how to
/// install by hand.
pub fn install_on_linux(runtime: &str) -> (step: RuntimeStep)
    ensures
        step@ == RuntimeStepView::Done(
            RuntimeReportView::Guidance {
                platform: Platform::Linux,
                manual: manual_of(runtime@, Platform::Linux),
            },
        ),
{
    RuntimeStep::Done(
        RuntimeReport::Guidance {
            platform: Platform::Linux,
            manual: show_manual_instructions(runtime, Platform::Linux),
        },
    )
}

/// The next step of installing `runtime` on macOS.
pub fn install_on_macos(runtime: &str, facts: &RuntimeFacts) -> (step: RuntimeStep)
    ensures
        step@ == install_step(runtime@, Platform::MacOS, *facts),
{
    match facts.brew {
        None => RuntimeStep::Probe { name: "brew", wanted: Wanted::Homebrew },
        Some(false) => RuntimeStep::Done(
            RuntimeReport::Guidance {
                platform: Platform::MacOS,
                manual: show_manual_instructions(runtime, Platform::MacOS),
            },
        ),
        Some(true) => {
            let package = if same_text(runtime, "llama-cpp") {
                "llama.cpp"
            } else if same_text(runtime, "ollama") {
                "ollama"
            } else {
                return RuntimeStep::Fail(RuntimeError::UnknownRuntime(String::from_str(runtime)));
            };
            let mut arguments: Vec<String> = Vec::new();
            arguments.push(String::from_str("install"));
            arguments.push(String::from_str(package));
            assert(texts(arguments@) =~= seq!["install"@, package@]);
            installer("brew", arguments, runtime, facts.installer_succeeded)
        },
    }
}

/// The next step of installing a runtime on Windows: the user is told where
/// to turn.
pub fn install_on_windows(_runtime: &str) -> (step: RuntimeStep)
    ensures
        step@ == RuntimeStepView::Done(RuntimeReportView::WindowsNotes),
{
    RuntimeStep::Done(RuntimeReport::WindowsNotes)
}

/// The next step of installing `runtime`, or the runtime that the user
/// picks, on a host of kind `platform`.
pub fn install_runtime(
    runtime: Option<&str>,
    platform: Platform,
    facts: &RuntimeFacts,
) -> (step: RuntimeStep)
    ensures
        step@ == (match runtime {
            Some(name) => install_step(name@, platform, *facts),
            None => match facts.choice {
                None => RuntimeStepView::AskChoice,
                Some(choice) => match picked_name(choice) {
                    None => RuntimeStepView::Done(RuntimeReportView::InvalidChoice),
                    Some(name) => install_step(name, platform, *facts),
                },
            },
        }),
{
    let name = match runtime {
        Some(name) => name,
        None => match facts.choice {
            None => {
                return RuntimeStep::AskChoice;
            },
            Some(Choice::LlamaCpp) => "llama-cpp",
            Some(Choice::Ollama) => "ollama",
            Some(Choice::Invalid) => {
                return RuntimeStep::Done(RuntimeReport::InvalidChoice);
            },
        },
    };
    match platform {
        Platform::Termux => install_on_termux(name, facts),
        Platform::Linux => install_on_linux(name),
        Platform::MacOS => install_on_macos(name, facts),
        Platform::Windows => install_on_windows(name),
        Platform::Unknown => RuntimeStep::Done(
            RuntimeReport::Guidance {
                platform: Platform::Unknown,
                manual: show_manual_instructions(name, Platform::Unknown),
            },
        ),
    }
}

/// The step that describes the runtimes that exist.
pub fn list_runtimes() -> (step: RuntimeStep)
    ensures
        step@ == RuntimeStepView::Done(RuntimeReportView::Catalog),
{
    RuntimeStep::Done(RuntimeReport::Catalog)
}

/// The next step of `runtime check`, `runtime install [<name>]` or `runtime
/// list` on a host whose operating system calls itself `os` and whose
/// environment holds `prefix` under `PREFIX`.
pub fn execute(
    action: &RuntimeAction,
    os: &str,
    prefix: Option<&str>,
    facts: &RuntimeFacts,
) -> (step: RuntimeStep)
    ensures
        step@ == next_step(*action, os@, opt_text(prefix), *facts),
{
    match action {
        RuntimeAction::Check => check_runtimes(facts),
        RuntimeAction::List => list_runtimes(),
        RuntimeAction::Install { runtime } => {
            let platform = detect_platform(os, prefix);
            match runtime {
                Some(name) => install_runtime(Some(name.as_str()), platform, facts),
                None => install_runtime(None, platform, facts),
            }
        },
    }
}

/// Installing a runtime that does not exist runs no package manager: where
/// neither Termux nor Homebrew has a package of the name, no step starts a
/// program, whatever else is known.
pub proof fn unknown_runtime_installs_nothing(
    runtime: Seq<char>,
    platform: Platform,
    facts: RuntimeFacts,
)
    requires
        termux_package(runtime) is None,
    ensures
        !(install_step(runtime, platform, facts) is Run),
{
}

/// A runtime command asks only for what is not known yet, so that each
/// answer brings it further.
pub proof fn asks_only_for_what_is_unknown(
    action: RuntimeAction,
    os: Seq<char>,
    prefix: Option<Seq<char>>,
    facts: RuntimeFacts,
)
    ensures
        match next_step(action, os, prefix, facts) {
            RuntimeStepView::Probe { name, wanted } => match wanted {
                Wanted::Llama => facts.llama@.len() < 3 && name == candidate_names(
                    Runtime::LlamaCpp,
                )[facts.llama@.len() as int],
                Wanted::Ollama => facts.ollama is None,
                Wanted::Homebrew => facts.brew is None,
                Wanted::Tool => false,
            },
            RuntimeStepView::QueryVersion { program, wanted } => match wanted {
                Wanted::Llama => facts.llama_version is None,
                Wanted::Ollama => facts.ollama_version is None,
                _ => false,
            },
            RuntimeStepView::AskChoice => facts.choice is None,
            RuntimeStepView::Run { .. } => facts.installer_succeeded is None,
            _ => true,
        },
{
    first_found_wins(candidate_names(Runtime::LlamaCpp), facts.llama@);
}

} // verus!
