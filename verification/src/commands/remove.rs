//! `remove`: delete a model's directory from the store, once the user has
//! agreed.

use crate::config::{join, joined, models_dir_of, yuuki_dir_of};
use crate::store::{
    model_dir, total_bytes, total_size, FileEntry, StoreError, StoreErrorView,
};
use crate::text::opt_text;
use vstd::prelude::*;

verus! {

/// What is known so far of a removal.
#[derive(Debug, Clone, PartialEq, Eq)]
pub struct RemoveFacts {
    /// The store's directories have been made.
    pub store_ready: bool,
    /// Whether the model's directory exists, once that has been looked up.
    pub directory_exists: Option<bool>,
    /// The files in the model's directory, once it has been read.
    pub files: Option<Vec<FileEntry>>,
    /// Whether the user agreed when asked to confirm, once asked.
    pub agreed: Option<bool>,
    /// The directory has been deleted.
    pub deleted: bool,
}

/// How a removal ended.
#[derive(Debug, Clone, Copy, PartialEq, Eq, Structural)]
pub enum RemoveOutcome {
    /// The model has no directory in the store: there was nothing to do.
    NotDownloaded,
    /// The user did not agree: nothing was deleted.
    Cancelled,
    /// The directory is gone, and with it this many bytes.
    Removed { freed: u64 },
}

/// The next step of a removal.
#[derive(Debug, Clone, PartialEq, Eq)]
pub enum RemoveStep {
    /// Make the store's directories where they are missing.
    OpenStore { yuuki_dir: String, models_dir: String },
    /// Find out whether this directory exists.
    CheckDirectory(String),
    /// Read the sizes of the files in this directory.
    Measure(String),
    /// Ask the user whether the model, which takes `bytes` bytes, is to go.
    /// What counts as a yes is for `text::confirmed` to say.
    Confirm { bytes: u64 },
    /// Delete this directory with all that is in it.
    Delete(String),
    /// The removal is over.
    Done(RemoveOutcome),
    /// The removal failed.
    Fail(StoreError),
}

/// A `RemoveStep` as plain values.
pub enum RemoveStepView {
    OpenStore { yuuki_dir: Seq<char>, models_dir: Seq<char> },
    CheckDirectory(Seq<char>),
    Measure(Seq<char>),
    Confirm { bytes: u64 },
    Delete(Seq<char>),
    Done(RemoveOutcome),
    Fail(StoreErrorView),
}

impl View for RemoveStep {
    type V = RemoveStepView;

    open spec fn view(&self) -> RemoveStepView {
        match self {
            RemoveStep::OpenStore { yuuki_dir, models_dir } => RemoveStepView::OpenStore {
                yuuki_dir: yuuki_dir@,
                models_dir: models_dir@,
            },
            RemoveStep::CheckDirectory(path) => RemoveStepView::CheckDirectory(path@),
            RemoveStep::Measure(path) => RemoveStepView::Measure(path@),
            RemoveStep::Confirm { bytes } => RemoveStepView::Confirm { bytes: *bytes },
            RemoveStep::Delete(path) => RemoveStepView::Delete(path@),
            RemoveStep::Done(outcome) => RemoveStepView::Done(*outcome),
            RemoveStep::Fail(error) => RemoveStepView::Fail(error@),
        }
    }
}

/// The bytes of the model's directory, as far as it has been read, fit the
/// counter.
pub open spec fn measurable(facts: RemoveFacts) -> bool {
    facts.files is Some ==> total_bytes(facts.files.unwrap()@) <= u64::MAX
}

/// The next step of a removal, by what is known so far. In this order: the
/// store is opened; a model without a directory ends the removal with
/// nothing done; the directory is measured; the user is asked; without the
/// user's consent the removal ends with nothing done; the directory is
/// deleted.
pub open spec fn next_step(model: Seq<char>, home: Option<Seq<char>>, facts: RemoveFacts)
    -> RemoveStepView {
    if home is None {
        RemoveStepView::Fail(StoreErrorView::NoHomeDirectory)
    } else if !facts.store_ready {
        RemoveStepView::OpenStore {
            yuuki_dir: yuuki_dir_of(home.unwrap()),
            models_dir: models_dir_of(home.unwrap()),
        }
    } else {
        let directory = joined(models_dir_of(home.unwrap()), model);
        if facts.directory_exists is None {
            RemoveStepView::CheckDirectory(directory)
        } else if !facts.directory_exists.unwrap() {
            RemoveStepView::Done(RemoveOutcome::NotDownloaded)
        } else if facts.files is None {
            RemoveStepView::Measure(directory)
        } else {
            let bytes = total_bytes(facts.files.unwrap()@) as u64;
            if facts.agreed is None {
                RemoveStepView::Confirm { bytes }
            } else if !facts.agreed.unwrap() {
                RemoveStepView::Done(RemoveOutcome::Cancelled)
            } else if !facts.deleted {
                RemoveStepView::Delete(directory)
            } else {
                RemoveStepView::Done(RemoveOutcome::Removed { freed: bytes })
            }
        }
    }
}

/// The next step of `remove <model>`, for a user whose home directory is
/// `home`.
pub fn execute(model: &str, home: Option<&str>, facts: &RemoveFacts) -> (step: RemoveStep)
    requires
        measurable(*facts),
    ensures
        step@ == next_step(model@, opt_text(home), *facts),
{
    let home_dir = match home {
        Some(h) => h,
        None => {
            return RemoveStep::Fail(StoreError::NoHomeDirectory);
        },
    };
    let yuuki_dir = join(home_dir, ".yuuki");
    let models_dir = join(yuuki_dir.as_str(), "models");
    if !facts.store_ready {
        return RemoveStep::OpenStore { yuuki_dir, models_dir };
    }
    let directory = model_dir(models_dir.as_str(), model);
    match facts.directory_exists {
        None => {
            return RemoveStep::CheckDirectory(directory);
        },
        Some(false) => {
            return RemoveStep::Done(RemoveOutcome::NotDownloaded);
        },
        Some(true) => {},
    }
    let bytes = match &facts.files {
        None => {
            return RemoveStep::Measure(directory);
        },
        Some(files) => total_size(Some(files)),
    };
    match facts.agreed {
        None => RemoveStep::Confirm { bytes },
        Some(false) => RemoveStep::Done(RemoveOutcome::Cancelled),
        Some(true) => {
            if !facts.deleted {
                RemoveStep::Delete(directory)
            } else {
                RemoveStep::Done(RemoveOutcome::Removed { freed: bytes })
            }
        },
    }
}

/// Removing a model that has no directory is a success with nothing done:
/// once the store is open and the directory is known to be missing, the
/// removal is over, and neither a question nor a deletion follows.
pub proof fn missing_directory_is_no_failure(
    model: Seq<char>,
    home: Seq<char>,
    facts: RemoveFacts,
)
    requires
        facts.store_ready,
        facts.directory_exists == Some(false),
    ensures
        next_step(model, Some(home), facts) == RemoveStepView::Done(RemoveOutcome::NotDownloaded),
{
}

/// Nothing is deleted without the user's consent: a step that deletes has
/// the user's agreement behind it, for a directory that was found to exist.
pub proof fn deletion_needs_consent(model: Seq<char>, home: Option<Seq<char>>, facts: RemoveFacts)
    requires
        next_step(model, home, facts) is Delete,
    ensures
        facts.agreed == Some(true),
        facts.directory_exists == Some(true),
{
}

/// A removal asks only for what is not known yet, so that each answer
/// brings it further.
pub proof fn asks_only_for_what_is_unknown(
    model: Seq<char>,
    home: Option<Seq<char>>,
    facts: RemoveFacts,
)
    ensures
        match next_step(model, home, facts) {
            RemoveStepView::OpenStore { .. } => !facts.store_ready,
            RemoveStepView::CheckDirectory(_) => facts.directory_exists is None,
            RemoveStepView::Measure(_) => facts.files is None,
            RemoveStepView::Confirm { .. } => facts.agreed is None,
            RemoveStepView::Delete(_) => !facts.deleted,
            _ => true,
        },
{
}

} // verus!
