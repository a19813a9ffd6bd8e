//! `info`: what is known of a model, on the hub and in the store.

use crate::commands::list::{download_command, download_hint};
use crate::config::{join, joined, models_dir_of, yuuki_dir_of};
use crate::error::ErrorKind;
use crate::registry::{known_model, model_page, model_page_text, validate, HF_ORG};
use crate::store::{
    artifact_views, artifacts, artifacts_among, first_unreadable, model_dir, Artifact,
    ArtifactView, FileEntry, StoreError, StoreErrorView,
};
use crate::text::opt_text;
use vstd::prelude::*;

verus! {

/// What a reading of the model's directory found.
#[derive(Debug, Clone, PartialEq, Eq)]
pub enum Contents {
    /// The directory could not be read.
    Unreadable,
    /// The directory holds these files.
    Files(Vec<FileEntry>),
}

/// What is known so far of an inquiry.
#[derive(Debug, Clone, PartialEq, Eq)]
pub struct InfoFacts {
    /// The store's directories have been made.
    pub store_ready: bool,
    /// Whether the model's directory exists, once that has been looked up.
    pub directory_exists: Option<bool>,
    /// What the model's directory holds, once it has been read.
    pub contents: Option<Contents>,
}

/// Where a model stands in the store.
#[derive(Debug, Clone, PartialEq, Eq)]
pub enum LocalStatus {
    /// It has no directory; this command downloads it.
    NotDownloaded { command: String },
    /// It has the directory `location`, with these artifacts in it.
    Downloaded { location: String, variants: Vec<Artifact> },
}

/// A `LocalStatus` as plain values.
pub enum LocalStatusView {
    NotDownloaded { command: Seq<char> },
    Downloaded { location: Seq<char>, variants: Seq<ArtifactView> },
}

impl View for LocalStatus {
    type V = LocalStatusView;

    open spec fn view(&self) -> LocalStatusView {
        match self {
            LocalStatus::NotDownloaded { command } => LocalStatusView::NotDownloaded {
                command: command@,
            },
            LocalStatus::Downloaded { location, variants } => LocalStatusView::Downloaded {
                location: location@,
                variants: artifact_views(variants@),
            },
        }
    }
}

/// What is known of a model.
#[derive(Debug, Clone, PartialEq, Eq)]
pub struct InfoReport {
    /// The model.
    pub model: String,
    /// The model's page on the hub.
    pub page: String,
    /// Where the model stands in the store.
    pub local: LocalStatus,
    /// Whether the variants that the hub usually has are to be shown too.
    pub show_variants: bool,
}

/// An `InfoReport` as plain values.
pub struct InfoReportView {
    pub model: Seq<char>,
    pub page: Seq<char>,
    pub local: LocalStatusView,
    pub show_variants: bool,
}

impl View for InfoReport {
    type V = InfoReportView;

    open spec fn view(&self) -> InfoReportView {
        InfoReportView {
            model: self.model@,
            page: self.page@,
            local: self.local@,
            show_variants: self.show_variants,
        }
    }
}

/// Why an inquiry failed.
#[derive(Debug, Clone, PartialEq, Eq)]
pub enum InfoError {
    /// The model is not a known one.
    UnknownModel(String),
    /// The store could not be looked into.
    Store(StoreError),
}

/// An `InfoError` as plain values.
pub enum InfoErrorView {
    UnknownModel(Seq<char>),
    Store(StoreErrorView),
}

impl View for InfoError {
    type V = InfoErrorView;

    open spec fn view(&self) -> InfoErrorView {
        match self {
            InfoError::UnknownModel(name) => InfoErrorView::UnknownModel(name@),
            InfoError::Store(error) => InfoErrorView::Store(error@),
        }
    }
}

/// The next step of an inquiry.
#[derive(Debug, Clone, PartialEq, Eq)]
pub enum InfoStep {
    /// Make the store's directories where they are missing.
    OpenStore { yuuki_dir: String, models_dir: String },
    /// Find out whether this directory exists.
    CheckDirectory(String),
    /// Read the files in this directory, with their sizes.
    ReadDirectory(String),
    /// The inquiry is over.
    Done(InfoReport),
    /// The inquiry failed.
    Fail(InfoError),
}

/// An `InfoStep` as plain values.
pub enum InfoStepView {
    OpenStore { yuuki_dir: Seq<char>, models_dir: Seq<char> },
    CheckDirectory(Seq<char>),
    ReadDirectory(Seq<char>),
    Done(InfoReportView),
    Fail(InfoErrorView),
}

impl View for InfoStep {
    type V = InfoStepView;

    open spec fn view(&self) -> InfoStepView {
        match self {
            InfoStep::OpenStore { yuuki_dir, models_dir } => InfoStepView::OpenStore {
                yuuki_dir: yuuki_dir@,
                models_dir: models_dir@,
            },
            InfoStep::CheckDirectory(path) => InfoStepView::CheckDirectory(path@),
            InfoStep::ReadDirectory(path) => InfoStepView::ReadDirectory(path@),
            InfoStep::Done(report) => InfoStepView::Done(report@),
            InfoStep::Fail(error) => InfoStepView::Fail(error@),
        }
    }
}

/// The artifacts in a model's directory, by what a reading of it found: a
/// directory that could not be read shows none.
pub open spec fn variants_of(contents: Contents) -> Result<Seq<ArtifactView>, StoreErrorView> {
    match contents {
        Contents::Unreadable => Ok(Seq::empty()),
        Contents::Files(files) => match first_unreadable(files@) {
            Some(failure) => Err(failure),
            None => Ok(artifacts_among(files@)),
        },
    }
}

/// The message of a failure.
pub open spec fn message_text(error: InfoErrorView) -> Seq<char> {
    match error {
        InfoErrorView::UnknownModel(name) => "Model '"@ + name
            + "' not found. Use 'yuy list models --remote' to see available models."@,
        InfoErrorView::Store(StoreErrorView::NoHomeDirectory) => "Could not find home directory"@,
        InfoErrorView::Store(StoreErrorView::Unreadable { name, reason }) => reason,
    }
}

/// The next step of an inquiry, by what is known so far. In this order:
/// the model must be a known one; the store is opened; a model without a
/// directory is reported as not downloaded; the directory is read; the
/// model is reported with its artifacts.
pub open spec fn next_step(
    model: Seq<char>,
    variants: bool,
    home: Option<Seq<char>>,
    facts: InfoFacts,
) -> InfoStepView {
    if !known_model(model) {
        InfoStepView::Fail(InfoErrorView::UnknownModel(model))
    } else if home is None {
        InfoStepView::Fail(InfoErrorView::Store(StoreErrorView::NoHomeDirectory))
    } else if !facts.store_ready {
        InfoStepView::OpenStore {
            yuuki_dir: yuuki_dir_of(home.unwrap()),
            models_dir: models_dir_of(home.unwrap()),
        }
    } else {
        let directory = joined(models_dir_of(home.unwrap()), model);
        let page = model_page_text(HF_ORG@, model);
        if facts.directory_exists is None {
            InfoStepView::CheckDirectory(directory)
        } else if !facts.directory_exists.unwrap() {
            InfoStepView::Done(
                InfoReportView {
                    model,
                    page,
                    local: LocalStatusView::NotDownloaded { command: download_command(model) },
                    show_variants: variants,
                },
            )
        } else if facts.contents is None {
            InfoStepView::ReadDirectory(directory)
        } else {
            match variants_of(facts.contents.unwrap()) {
                Err(failure) => InfoStepView::Fail(InfoErrorView::Store(failure)),
                Ok(found) => InfoStepView::Done(
                    InfoReportView {
                        model,
                        page,
                        local: LocalStatusView::Downloaded { location: directory, variants: found },
                        show_variants: variants,
                    },
                ),
            }
        }
    }
}

impl InfoError {
    /// The class of the failure.
    pub fn kind(&self) -> (kind: ErrorKind)
        ensures
            kind == (match self@ {
                InfoErrorView::UnknownModel(_) => ErrorKind::Validation,
                InfoErrorView::Store(_) => ErrorKind::Io,
            }),
    {
        match self {
            InfoError::UnknownModel(_) => ErrorKind::Validation,
            InfoError::Store(_) => ErrorKind::Io,
        }
    }

    /// The failure in words.
    pub fn message(&self) -> (text: String)
        ensures
            text@ == message_text(self@),
    {
        match self {
            InfoError::UnknownModel(name) => {
                let mut text = String::from_str("Model '");
                text.append(name.as_str());
                text.append("' not found. Use 'yuy list models --remote' to see available models.");
                text
            },
            InfoError::Store(error) => error.message(),
        }
    }
}

/// The next step of `info <model> [--variants]`, for a user whose home
/// directory is `home`.
pub fn execute(
    model: &str,
    variants: bool,
    home: Option<&str>,
    facts: &InfoFacts,
) -> (step: InfoStep)
    ensures
        step@ == next_step(model@, variants, opt_text(home), *facts),
{
    if !validate(model) {
        return InfoStep::Fail(InfoError::UnknownModel(String::from_str(model)));
    }
    let home_dir = match home {
        Some(h) => h,
        None => {
            return InfoStep::Fail(InfoError::Store(StoreError::NoHomeDirectory));
        },
    };
    let yuuki_dir = join(home_dir, ".yuuki");
    let models_dir = join(yuuki_dir.as_str(), "models");
    if !facts.store_ready {
        return InfoStep::OpenStore { yuuki_dir, models_dir };
    }
    let directory = model_dir(models_dir.as_str(), model);
    let page = model_page(HF_ORG, model);
    match facts.directory_exists {
        None => {
            return InfoStep::CheckDirectory(directory);
        },
        Some(false) => {
            return InfoStep::Done(
                InfoReport {
                    model: String::from_str(model),
                    page,
                    local: LocalStatus::NotDownloaded { command: download_hint(model) },
                    show_variants: variants,
                },
            );
        },
        Some(true) => {},
    }
    let found = match &facts.contents {
        None => {
            return InfoStep::ReadDirectory(directory);
        },
        Some(Contents::Unreadable) => {
            let none: Vec<Artifact> = Vec::new();
            assert(artifact_views(none@) =~= Seq::<ArtifactView>::empty());
            none
        },
        Some(Contents::Files(files)) => match artifacts(files) {
            Ok(found) => found,
            Err(error) => {
                return InfoStep::Fail(InfoError::Store(error));
            },
        },
    };
    InfoStep::Done(
        InfoReport {
            model: String::from_str(model),
            page,
            local: LocalStatus::Downloaded { location: directory, variants: found },
            show_variants: variants,
        },
    )
}

/// An inquiry touches nothing for a model that does not exist: whatever
/// else is known, it fails at once, naming the model.
pub proof fn unknown_model_touches_nothing(
    model: Seq<char>,
    variants: bool,
    home: Option<Seq<char>>,
    facts: InfoFacts,
)
    requires
        !known_model(model),
    ensures
        next_step(model, variants, home, facts) == InfoStepView::Fail(
            InfoErrorView::UnknownModel(model),
        ),
{
}

/// An inquiry asks only for what is not known yet, so that each answer
/// brings it further.
pub proof fn asks_only_for_what_is_unknown(
    model: Seq<char>,
    variants: bool,
    home: Option<Seq<char>>,
    facts: InfoFacts,
)
    ensures
        match next_step(model, variants, home, facts) {
            InfoStepView::OpenStore { .. } => !facts.store_ready,
            InfoStepView::CheckDirectory(_) => facts.directory_exists is None,
            InfoStepView::ReadDirectory(_) => facts.contents is None,
            _ => true,
        },
{
}

} // verus!
