//! `setup`: make the store, look for a runtime, and offer to install one.

use crate::config::{join, models_dir_of, yuuki_dir_of, ConfigError};
use crate::dispatch::{
    candidate_names, candidates, first_found_wins, locate, search, Probe, Runtime, Wanted,
};
use crate::platform::{detect_platform, platform_of, Platform};
use crate::text::opt_text;
use vstd::prelude::*;

verus! {

/// What is known so far of a setup.
#[derive(Debug, Clone, PartialEq, Eq)]
pub struct SetupFacts {
    /// The store's directories have been made.
    pub store_ready: bool,
    /// Whether the candidates of llama.cpp are installed, in their order, as
    /// far as they have been tried.
    pub llama: Vec<bool>,
    /// Whether Ollama is installed, once that has been tried.
    pub ollama: Option<bool>,
    /// Whether the user agreed when offered an installation, once asked.
    pub agreed: Option<bool>,
    /// The installation has been gone through.
    pub install_done: bool,
}

/// How the host stands with runtimes at the end of a setup.
#[derive(Debug, Clone, Copy, PartialEq, Eq, Structural)]
pub enum RuntimeState {
    /// A runtime was installed already.
    Ready,
    /// None was installed, and the installation was gone through.
    InstallAttempted,
    /// None was installed, and the user declined the installation.
    Skipped,
}

/// What a setup found and did.
#[derive(Debug, Clone, PartialEq, Eq)]
pub struct SetupReport {
    /// The tool's own directory.
    pub yuuki_dir: String,
    /// The models directory.
    pub models_dir: String,
    /// The kind of the host.
    pub platform: Platform,
    /// Whether llama.cpp is installed.
    pub llama_installed: bool,
    /// Whether Ollama is installed.
    pub ollama_installed: bool,
    /// How the host stands with runtimes.
    pub runtime: RuntimeState,
}

/// A `SetupReport` as plain values.
pub struct SetupReportView {
    pub yuuki_dir: Seq<char>,
    pub models_dir: Seq<char>,
    pub platform: Platform,
    pub llama_installed: bool,
    pub ollama_installed: bool,
    pub runtime: RuntimeState,
}

impl View for SetupReport {
    type V = SetupReportView;

    open spec fn view(&self) -> SetupReportView {
        SetupReportView {
            yuuki_dir: self.yuuki_dir@,
            models_dir: self.models_dir@,
            platform: self.platform,
            llama_installed: self.llama_installed,
            ollama_installed: self.ollama_installed,
            runtime: self.runtime,
        }
    }
}

/// The next step of a setup.
#[derive(Debug, Clone, PartialEq, Eq)]
pub enum SetupStep {
    /// Make the store's directories where they are missing.
    OpenStore { yuuki_dir: String, models_dir: String },
    /// Find out whether a program of this name is installed, and add the
    /// answer to what is known of `wanted`.
    Probe { name: &'static str, wanted: Wanted },
    /// Ask the user whether a runtime is to be installed now. What counts
    /// as a yes is for `text::confirmed` to say.
    OfferInstall,
    /// Go through the installation of a runtime that the user picks.
    Install,
    /// The setup is over.
    Done(SetupReport),
    /// The setup failed.
    Fail(ConfigError),
}

/// A `SetupStep` as plain values.
pub enum SetupStepView {
    OpenStore { yuuki_dir: Seq<char>, models_dir: Seq<char> },
    Probe { name: Seq<char>, wanted: Wanted },
    OfferInstall,
    Install,
    Done(SetupReportView),
    Fail(ConfigError),
}

impl View for SetupStep {
    type V = SetupStepView;

    open spec fn view(&self) -> SetupStepView {
        match self {
            SetupStep::OpenStore { yuuki_dir, models_dir } => SetupStepView::OpenStore {
                yuuki_dir: yuuki_dir@,
                models_dir: models_dir@,
            },
            SetupStep::Probe { name, wanted } => SetupStepView::Probe {
                name: name@,
                wanted: *wanted,
            },
            SetupStep::OfferInstall => SetupStepView::OfferInstall,
            SetupStep::Install => SetupStepView::Install,
            SetupStep::Done(report) => SetupStepView::Done(report@),
            SetupStep::Fail(error) => SetupStepView::Fail(*error),
        }
    }
}

/// The report of a setup that ends with the runtimes in the state `runtime`.
pub open spec fn report_of(
    os: Seq<char>,
    prefix: Option<Seq<char>>,
    home: Seq<char>,
    facts: SetupFacts,
    runtime: RuntimeState,
) -> SetupReportView {
    SetupReportView {
        yuuki_dir: yuuki_dir_of(home),
        models_dir: models_dir_of(home),
        platform: platform_of(os, prefix),
        llama_installed: search(candidate_names(Runtime::LlamaCpp), facts.llama@) is Found,
        ollama_installed: facts.ollama == Some(true),
        runtime,
    }
}

/// The next step of a setup, by what is known so far. In this order: the
/// store is opened; the candidates of llama.cpp are tried until one is found
/// installed; Ollama is tried; where neither is installed the user is
/// offered an installation, which is gone through only with the user's
/// consent.
pub open spec fn next_step(
    os: Seq<char>,
    prefix: Option<Seq<char>>,
    home: Option<Seq<char>>,
    facts: SetupFacts,
) -> SetupStepView {
    if home is None {
        SetupStepView::Fail(ConfigError::NoHomeDirectory)
    } else if !facts.store_ready {
        SetupStepView::OpenStore {
            yuuki_dir: yuuki_dir_of(home.unwrap()),
            models_dir: models_dir_of(home.unwrap()),
        }
    } else {
        let llama = search(candidate_names(Runtime::LlamaCpp), facts.llama@);
        if llama is Try {
            SetupStepView::Probe { name: llama->Try_0, wanted: Wanted::Llama }
        } else if facts.ollama is None {
            SetupStepView::Probe { name: "ollama"@, wanted: Wanted::Ollama }
        } else if llama is Found || facts.ollama.unwrap() {
            SetupStepView::Done(report_of(os, prefix, home.unwrap(), facts, RuntimeState::Ready))
        } else if facts.agreed is None {
            SetupStepView::OfferInstall
        } else if !facts.agreed.unwrap() {
            SetupStepView::Done(
                report_of(os, prefix, home.unwrap(), facts, RuntimeState::Skipped),
            )
        } else if !facts.install_done {
            SetupStepView::Install
        } else {
            SetupStepView::Done(
                report_of(os, prefix, home.unwrap(), facts, RuntimeState::InstallAttempted),
            )
        }
    }
}

/// The next step of `setup` on a host whose operating system calls itself
/// `os` and whose environment holds `prefix` under `PREFIX`, for a user
/// whose home directory is `home`.
pub fn execute(
    os: &str,
    prefix: Option<&str>,
    home: Option<&str>,
    facts: &SetupFacts,
) -> (step: SetupStep)
    ensures
        step@ == next_step(os@, opt_text(prefix), opt_text(home), *facts),
{
    let home_dir = match home {
        Some(h) => h,
        None => {
            return SetupStep::Fail(ConfigError::NoHomeDirectory);
        },
    };
    let yuuki_dir = join(home_dir, ".yuuki");
    let models_dir = join(yuuki_dir.as_str(), "models");
    if !facts.store_ready {
        return SetupStep::OpenStore { yuuki_dir, models_dir };
    }
    let list = candidates(Runtime::LlamaCpp);
    let llama_installed = match locate(&list, &facts.llama) {
        Probe::Try(name) => {
            return SetupStep::Probe { name, wanted: Wanted::Llama };
        },
        Probe::Found(_) => true,
        Probe::Absent => false,
    };
    let ollama_installed = match facts.ollama {
        None => {
            return SetupStep::Probe { name: "ollama", wanted: Wanted::Ollama };
        },
        Some(found) => found,
    };
    let runtime = if llama_installed || ollama_installed {
        RuntimeState::Ready
    } else {
        match facts.agreed {
            None => {
                return SetupStep::OfferInstall;
            },
            Some(false) => RuntimeState::Skipped,
            Some(true) => {
                if !facts.install_done {
                    return SetupStep::Install;
                } else {
                    RuntimeState::InstallAttempted
                }
            },
        }
    };
    SetupStep::Done(
        SetupReport {
            yuuki_dir,
            models_dir,
            platform: detect_platform(os, prefix),
            llama_installed,
            ollama_installed,
            runtime,
        },
    )
}

/// Nothing is installed without the user's consent: a step that goes
/// through the installation has the user's agreement behind it.
pub proof fn installation_needs_consent(
    os: Seq<char>,
    prefix: Option<Seq<char>>,
    home: Option<Seq<char>>,
    facts: SetupFacts,
)
    requires
        next_step(os, prefix, home, facts) is Install,
    ensures
        facts.agreed == Some(true),
{
}

/// A setup asks only for what is not known yet, so that each answer brings
/// it further.
pub proof fn asks_only_for_what_is_unknown(
    os: Seq<char>,
    prefix: Option<Seq<char>>,
    home: Option<Seq<char>>,
    facts: SetupFacts,
)
    ensures
        match next_step(os, prefix, home, facts) {
            SetupStepView::OpenStore { .. } => !facts.store_ready,
            SetupStepView::Probe { name, wanted } => match wanted {
                Wanted::Llama => facts.llama@.len() < 3 && name == candidate_names(
                    Runtime::LlamaCpp,
                )[facts.llama@.len() as int],
                Wanted::Ollama => facts.ollama is None,
                _ => false,
            },
            SetupStepView::OfferInstall => facts.agreed is None,
            SetupStepView::Install => !facts.install_done,
            _ => true,
        },
{
    first_found_wins(candidate_names(Runtime::LlamaCpp), facts.llama@);
}

} // verus!
