//! `doctor`: look the host and the store over and say what is amiss.

use crate::config::{join, models_dir_of, yuuki_dir_of, ConfigError};
use crate::dispatch::{
    candidate_names, candidates, first_found_wins, locate, search, Probe, ProbeView, Runtime,
    Wanted,
};
use crate::platform::{
    detect_platform, get_available_ram_gb, platform_of, recommend_quantization, recommended_tag,
    Platform,
};
use crate::store::{directory_count, store_bytes, usage, Scan, Usage};
use crate::text::{names, opt_text};
use vstd::prelude::*;

verus! {

/// What is known so far of a check-up.
#[derive(Debug, Clone, PartialEq, Eq)]
pub struct DoctorFacts {
    /// The store's directories have been made.
    pub store_ready: bool,
    /// What the models directory holds, once it has been read.
    pub scan: Option<Scan>,
    /// Whether the candidates of llama.cpp are installed, in their order, as
    /// far as they have been tried.
    pub llama: Vec<bool>,
    /// Whether Ollama is installed, once that has been tried.
    pub ollama: Option<bool>,
    /// Whether the tools are installed, in their order, as far as they have
    /// been tried.
    pub tools: Vec<bool>,
}

/// Something that keeps the tool from working.
#[derive(Debug, Clone, Copy, PartialEq, Eq, Structural)]
pub enum Issue {
    /// Neither llama.cpp nor Ollama is installed.
    NoRuntime,
}

/// Whether a tool is installed.
#[derive(Debug, Clone, Copy, PartialEq, Eq)]
pub struct ToolStatus {
    pub name: &'static str,
    pub available: bool,
}

/// The findings of a check-up.
#[derive(Debug, Clone, PartialEq, Eq)]
pub struct Diagnosis {
    /// The kind of the host.
    pub platform: Platform,
    /// The host's memory in gigabytes.
    pub ram_gb: usize,
    /// The quantization advised for the host.
    pub recommended_quant: &'static str,
    /// The tool's own directory.
    pub yuuki_dir: String,
    /// The models directory.
    pub models_dir: String,
    /// How much of the store is in use, where the models directory exists.
    pub usage: Option<Usage>,
    /// Whether llama.cpp is installed.
    pub llama_installed: bool,
    /// Whether Ollama is installed.
    pub ollama_installed: bool,
    /// The tools, each with whether it is installed.
    pub tools: Vec<ToolStatus>,
    /// What is amiss. The host is ready where nothing is.
    pub issues: Vec<Issue>,
}

/// A `Diagnosis` as plain values.
pub struct DiagnosisView {
    pub platform: Platform,
    pub ram_gb: usize,
    pub recommended_quant: Seq<char>,
    pub yuuki_dir: Seq<char>,
    pub models_dir: Seq<char>,
    pub usage: Option<Usage>,
    pub llama_installed: bool,
    pub ollama_installed: bool,
    pub tools: Seq<(Seq<char>, bool)>,
    pub issues: Seq<Issue>,
}

impl View for Diagnosis {
    type V = DiagnosisView;

    open spec fn view(&self) -> DiagnosisView {
        DiagnosisView {
            platform: self.platform,
            ram_gb: self.ram_gb,
            recommended_quant: self.recommended_quant@,
            yuuki_dir: self.yuuki_dir@,
            models_dir: self.models_dir@,
            usage: self.usage,
            llama_installed: self.llama_installed,
            ollama_installed: self.ollama_installed,
            tools: self.tools@.map_values(|t: ToolStatus| (t.name@, t.available)),
            issues: self.issues@,
        }
    }
}

/// The next step of a check-up.
#[derive(Debug, Clone, PartialEq, Eq)]
pub enum DoctorStep {
    /// Make the store's directories where they are missing.
    OpenStore { yuuki_dir: String, models_dir: String },
    /// Read the models directory, and each directory in it.
    ScanStore(String),
    /// Find out whether a program of this name is installed, and add the
    /// answer to what is known of `wanted`.
    Probe { name: &'static str, wanted: Wanted },
    /// The check-up is over.
    Done(Diagnosis),
    /// The check-up failed.
    Fail(ConfigError),
}

/// A `DoctorStep` as plain values.
pub enum DoctorStepView {
    OpenStore { yuuki_dir: Seq<char>, models_dir: Seq<char> },
    ScanStore(Seq<char>),
    Probe { name: Seq<char>, wanted: Wanted },
    Done(DiagnosisView),
    Fail(ConfigError),
}

impl View for DoctorStep {
    type V = DoctorStepView;

    open spec fn view(&self) -> DoctorStepView {
        match self {
            DoctorStep::OpenStore { yuuki_dir, models_dir } => DoctorStepView::OpenStore {
                yuuki_dir: yuuki_dir@,
                models_dir: models_dir@,
            },
            DoctorStep::ScanStore(path) => DoctorStepView::ScanStore(path@),
            DoctorStep::Probe { name, wanted } => DoctorStepView::Probe {
                name: name@,
                wanted: *wanted,
            },
            DoctorStep::Done(diagnosis) => DoctorStepView::Done(diagnosis@),
            DoctorStep::Fail(error) => DoctorStepView::Fail(*error),
        }
    }
}

/// The tools that the check-up looks for, in the order in which it does.
pub open spec fn tool_names() -> Seq<Seq<char>> {
    seq!["curl"@, "wget"@, "git"@]
}

/// How much of the store is in use, by what a reading of it found.
pub open spec fn usage_found(scan: Scan) -> Option<Usage> {
    match scan {
        Scan::Missing => None,
        Scan::Entries(entries) => Some(
            Usage {
                models: directory_count(entries@) as usize,
                bytes: store_bytes(entries@) as u64,
            },
        ),
    }
}

/// What is amiss on a host with these runtimes.
pub open spec fn issues_found(llama_installed: bool, ollama_installed: bool) -> Seq<Issue> {
    if !llama_installed && !ollama_installed {
        seq![Issue::NoRuntime]
    } else {
        Seq::empty()
    }
}

/// The findings, once everything has been looked up.
pub open spec fn diagnosis_of(
    os: Seq<char>,
    prefix: Option<Seq<char>>,
    home: Seq<char>,
    facts: DoctorFacts,
) -> DiagnosisView {
    let platform = platform_of(os, prefix);
    let llama_installed = search(candidate_names(Runtime::LlamaCpp), facts.llama@) is Found;
    let ollama_installed = facts.ollama == Some(true);
    DiagnosisView {
        platform,
        ram_gb: 8,
        recommended_quant: recommended_tag(platform, 8),
        yuuki_dir: yuuki_dir_of(home),
        models_dir: models_dir_of(home),
        usage: usage_found(facts.scan.unwrap()),
        llama_installed,
        ollama_installed,
        tools: Seq::new(3, |i: int| (tool_names()[i], facts.tools@[i])),
        issues: issues_found(llama_installed, ollama_installed),
    }
}

/// The next step of a check-up, by what is known so far. In this order: the
/// store is opened and read; the candidates of llama.cpp are tried until
/// one is found installed; Ollama is tried; the tools are tried; then the
/// findings are drawn up.
pub open spec fn next_step(
    os: Seq<char>,
    prefix: Option<Seq<char>>,
    home: Option<Seq<char>>,
    facts: DoctorFacts,
) -> DoctorStepView {
    if home is None {
        DoctorStepView::Fail(ConfigError::NoHomeDirectory)
    } else if !facts.store_ready {
        DoctorStepView::OpenStore {
            yuuki_dir: yuuki_dir_of(home.unwrap()),
            models_dir: models_dir_of(home.unwrap()),
        }
    } else if facts.scan is None {
        DoctorStepView::ScanStore(models_dir_of(home.unwrap()))
    } else {
        match search(candidate_names(Runtime::LlamaCpp), facts.llama@) {
            ProbeView::Try(name) => DoctorStepView::Probe { name, wanted: Wanted::Llama },
            _ => if facts.ollama is None {
                DoctorStepView::Probe { name: "ollama"@, wanted: Wanted::Ollama }
            } else if facts.tools@.len() < 3 {
                DoctorStepView::Probe {
                    name: tool_names()[facts.tools@.len() as int],
                    wanted: Wanted::Tool,
                }
            } else {
                DoctorStepView::Done(diagnosis_of(os, prefix, home.unwrap(), facts))
            },
        }
    }
}

/// The bytes of the store, as far as it has been read, fit the counter.
pub open spec fn measurable(facts: DoctorFacts) -> bool {
    match facts.scan {
        Some(Scan::Entries(entries)) => store_bytes(entries@) <= u64::MAX,
        _ => true,
    }
}

impl Issue {
    /// The issue in words.
    pub fn message(&self) -> (text: &'static str)
        ensures
            text@ == "No runtime installed"@,
    {
        "No runtime installed"
    }
}

/// The tools that the check-up looks for.
pub fn tools() -> (list: Vec<&'static str>)
    ensures
        names(list@) == tool_names(),
        list@.len() == 3,
{
    let list = vec!["curl", "wget", "git"];
    assert(names(list@) =~= tool_names());
    list
}

/// What is amiss on a host with these runtimes.
pub fn issues(llama_installed: bool, ollama_installed: bool) -> (list: Vec<Issue>)
    ensures
        list@ == issues_found(llama_installed, ollama_installed),
{
    let mut list: Vec<Issue> = Vec::new();
    if !llama_installed && !ollama_installed {
        list.push(Issue::NoRuntime);
    }
    assert(list@ =~= issues_found(llama_installed, ollama_installed));
    list
}

/// The next step of `doctor` on a host whose operating system calls itself
/// `os` and whose environment holds `prefix` under `PREFIX`, for a user
/// whose home directory is `home`.
pub fn execute(
    os: &str,
    prefix: Option<&str>,
    home: Option<&str>,
    facts: &DoctorFacts,
) -> (step: DoctorStep)
    requires
        measurable(*facts),
    ensures
        step@ == next_step(os@, opt_text(prefix), opt_text(home), *facts),
{
    let home_dir = match home {
        Some(h) => h,
        None => {
            return DoctorStep::Fail(ConfigError::NoHomeDirectory);
        },
    };
    let yuuki_dir = join(home_dir, ".yuuki");
    let models_dir = join(yuuki_dir.as_str(), "models");
    if !facts.store_ready {
        return DoctorStep::OpenStore { yuuki_dir, models_dir };
    }
    let used = match &facts.scan {
        None => {
            return DoctorStep::ScanStore(models_dir);
        },
        Some(Scan::Missing) => None,
        Some(Scan::Entries(entries)) => Some(usage(entries)),
    };
    let llama = candidates(Runtime::LlamaCpp);
    let llama_installed = match locate(&llama, &facts.llama) {
        Probe::Try(name) => {
            return DoctorStep::Probe { name, wanted: Wanted::Llama };
        },
        Probe::Found(_) => true,
        Probe::Absent => false,
    };
    let ollama_installed = match facts.ollama {
        None => {
            return DoctorStep::Probe { name: "ollama", wanted: Wanted::Ollama };
        },
        Some(found) => found,
    };
    let wanted = tools();
    if facts.tools.len() < 3 {
        assert(names(wanted@)[facts.tools@.len() as int] == wanted@[facts.tools@.len() as int]@);
        return DoctorStep::Probe { name: wanted[facts.tools.len()], wanted: Wanted::Tool };
    }
    let mut statuses: Vec<ToolStatus> = Vec::new();
    let mut i: usize = 0;
    while i < 3
        invariant
            i <= 3,
            facts.tools@.len() >= 3,
            names(wanted@) == tool_names(),
            wanted@.len() == 3,
            statuses@.len() == i,
            forall|k: int|
                0 <= k < i ==> (#[trigger] statuses@[k]).name@ == tool_names()[k]
                    && statuses@[k].available == facts.tools@[k],
        decreases 3 - i,
    {
        assert(names(wanted@)[i as int] == wanted@[i as int]@);
        statuses.push(ToolStatus { name: wanted[i], available: facts.tools[i] });
        i += 1;
    }
    let platform = detect_platform(os, prefix);
    let ram_gb = get_available_ram_gb();
    let diagnosis = Diagnosis {
        platform,
        ram_gb,
        recommended_quant: recommend_quantization(platform, ram_gb),
        yuuki_dir,
        models_dir,
        usage: used,
        llama_installed,
        ollama_installed,
        tools: statuses,
        issues: issues(llama_installed, ollama_installed),
    };
    proof {
        let expected = diagnosis_of(os@, opt_text(prefix), home_dir@, *facts);
        assert(diagnosis@.tools =~= expected.tools);
    }
    DoctorStep::Done(diagnosis)
}

/// A check-up asks only for what is not known yet, so that each answer
/// brings it further: the store is opened and read once, and each program
/// is looked for once, as the next in its list.
pub proof fn asks_only_for_what_is_unknown(
    os: Seq<char>,
    prefix: Option<Seq<char>>,
    home: Option<Seq<char>>,
    facts: DoctorFacts,
)
    ensures
        match next_step(os, prefix, home, facts) {
            DoctorStepView::OpenStore { .. } => !facts.store_ready,
            DoctorStepView::ScanStore(_) => facts.scan is None,
            DoctorStepView::Probe { name, wanted } => match wanted {
                Wanted::Llama => facts.llama@.len() < 3 && name == candidate_names(
                    Runtime::LlamaCpp,
                )[facts.llama@.len() as int],
                Wanted::Ollama => facts.ollama is None,
                Wanted::Tool => facts.tools@.len() < 3 && name
                    == tool_names()[facts.tools@.len() as int],
                Wanted::Homebrew => false,
            },
            _ => true,
        },
{
    first_found_wins(candidate_names(Runtime::LlamaCpp), facts.llama@);
}

} // verus!
