//! `list models`: the models in the store, or those on the hub.

use crate::cli::ListTarget;
use crate::config::{join, models_dir_of, yuuki_dir_of};
use crate::registry::{known_models, model_names, model_page, model_page_text, HF_ORG};
use crate::store::{
    artifact_views, artifacts, first_failure, lemma_failure_stays, listed, listing_of,
    model_views, Artifact, ArtifactView, Listing, ListingView, ModelListing, Scan, StoreEntry,
    StoreError, StoreErrorView,
};
use crate::text::{names, opt_text};
use vstd::prelude::*;

verus! {

/// What is known so far of a listing.
#[derive(Debug, Clone, PartialEq, Eq)]
pub struct ListFacts {
    /// The store's directories have been made.
    pub store_ready: bool,
    /// What the models directory holds, once it has been read.
    pub scan: Option<Scan>,
}

/// A model on the hub.
#[derive(Debug, Clone, PartialEq, Eq)]
pub struct RemoteModel {
    /// The model's name.
    pub name: &'static str,
    /// The model's page on the hub.
    pub page: String,
    /// The command that downloads the model.
    pub command: String,
}

/// A `RemoteModel` as plain values.
pub struct RemoteModelView {
    pub name: Seq<char>,
    pub page: Seq<char>,
    pub command: Seq<char>,
}

impl View for RemoteModel {
    type V = RemoteModelView;

    open spec fn view(&self) -> RemoteModelView {
        RemoteModelView { name: self.name@, page: self.page@, command: self.command@ }
    }
}

/// What a listing shows.
#[derive(Debug, Clone, PartialEq, Eq)]
pub enum ListReport {
    /// The models on the hub.
    Remote(Vec<RemoteModel>),
    /// The models in the store, which is at `location`.
    Local { listing: Listing, location: String },
}

/// A `ListReport` as plain values.
pub enum ListReportView {
    Remote(Seq<RemoteModelView>),
    Local { listing: ListingView, location: Seq<char> },
}

impl View for ListReport {
    type V = ListReportView;

    open spec fn view(&self) -> ListReportView {
        match self {
            ListReport::Remote(models) => ListReportView::Remote(
                models@.map_values(|m: RemoteModel| m@),
            ),
            ListReport::Local { listing, location } => ListReportView::Local {
                listing: listing@,
                location: location@,
            },
        }
    }
}

/// The next step of a listing.
#[derive(Debug, Clone, PartialEq, Eq)]
pub enum ListStep {
    /// Make the store's directories where they are missing.
    OpenStore { yuuki_dir: String, models_dir: String },
    /// Read the models directory, and each directory in it.
    ScanStore(String),
    /// The listing is drawn up.
    Done(ListReport),
    /// The listing failed.
    Fail(StoreError),
}

/// A `ListStep` as plain values.
pub enum ListStepView {
    OpenStore { yuuki_dir: Seq<char>, models_dir: Seq<char> },
    ScanStore(Seq<char>),
    Done(ListReportView),
    Fail(StoreErrorView),
}

impl View for ListStep {
    type V = ListStepView;

    open spec fn view(&self) -> ListStepView {
        match self {
            ListStep::OpenStore { yuuki_dir, models_dir } => ListStepView::OpenStore {
                yuuki_dir: yuuki_dir@,
                models_dir: models_dir@,
            },
            ListStep::ScanStore(path) => ListStepView::ScanStore(path@),
            ListStep::Done(report) => ListStepView::Done(report@),
            ListStep::Fail(error) => ListStepView::Fail(error@),
        }
    }
}

/// The command that downloads `model`.
pub open spec fn download_command(model: Seq<char>) -> Seq<char> {
    "yuy download "@ + model
}

/// The known models as the hub has them: each with its page under the
/// publishing organization and the command that downloads it.
pub open spec fn catalog() -> Seq<RemoteModelView> {
    model_names().map_values(
        |name: Seq<char>|
            RemoteModelView {
                name,
                page: model_page_text(HF_ORG@, name),
                command: download_command(name),
            },
    )
}

/// The next step of a listing, by what is known so far. The hub's models
/// are listed at once; for those in the store, the store is opened and read
/// first.
pub open spec fn next_step(target: ListTarget, home: Option<Seq<char>>, facts: ListFacts)
    -> ListStepView {
    if target->remote {
        ListStepView::Done(ListReportView::Remote(catalog()))
    } else if home is None {
        ListStepView::Fail(StoreErrorView::NoHomeDirectory)
    } else if !facts.store_ready {
        ListStepView::OpenStore {
            yuuki_dir: yuuki_dir_of(home.unwrap()),
            models_dir: models_dir_of(home.unwrap()),
        }
    } else if facts.scan is None {
        ListStepView::ScanStore(models_dir_of(home.unwrap()))
    } else {
        match listing_of(facts.scan.unwrap()) {
            Ok(listing) => ListStepView::Done(
                ListReportView::Local { listing, location: models_dir_of(home.unwrap()) },
            ),
            Err(failure) => ListStepView::Fail(failure),
        }
    }
}

/// The command that downloads `model`.
pub fn download_hint(model: &str) -> (command: String)
    ensures
        command@ == download_command(model@),
{
    let mut command = String::from_str("yuy download ");
    command.append(model);
    command
}

/// The models in the store, by what a reading of it found.
pub fn list_local_models(scan: &Scan) -> (found: Result<Listing, StoreError>)
    ensures
        match found {
            Ok(listing) => listing_of(*scan) == Ok::<ListingView, StoreErrorView>(listing@),
            Err(error) => listing_of(*scan) == Err::<ListingView, StoreErrorView>(error@),
        },
{
    let entries = match scan {
        Scan::Missing => {
            return Ok(Listing::EmptyStore);
        },
        Scan::Entries(entries) => entries,
    };
    if entries.len() == 0 {
        return Ok(Listing::EmptyStore);
    }
    let mut models: Vec<ModelListing> = Vec::new();
    let mut i: usize = 0;
    assert(entries@.take(0) =~= Seq::<StoreEntry>::empty());
    assert(model_views(models@) =~= listed(entries@.take(0)));
    while i < entries.len()
        invariant
            i <= entries.len(),
            entries.len() > 0,
            *scan == Scan::Entries(*entries),
            first_failure(entries@.take(i as int)) is None,
            model_views(models@) == listed(entries@.take(i as int)),
        decreases entries.len() - i,
    {
        proof {
            assert(entries@.take(i + 1).drop_last() =~= entries@.take(i as int));
        }
        let entry = &entries[i];
        if entry.is_dir {
            let found = match &entry.files {
                Some(files) => match artifacts(files) {
                    Ok(found) => found,
                    Err(error) => {
                        proof {
                            lemma_failure_stays(entries@, i + 1);
                        }
                        return Err(error);
                    },
                },
                None => {
                    let none: Vec<Artifact> = Vec::new();
                    assert(artifact_views(none@) =~= Seq::<ArtifactView>::empty());
                    none
                },
            };
            let ghost before = models@;
            let model = ModelListing { name: entry.name.clone(), artifacts: found };
            models.push(model);
            assert(model_views(models@) =~= model_views(before).push(model@));
        }
        i += 1;
    }
    assert(entries@.take(entries.len() as int) =~= entries@);
    Ok(Listing::Models(models))
}

/// The known models as the hub has them.
pub fn list_remote_models() -> (models: Vec<RemoteModel>)
    ensures
        models@.map_values(|m: RemoteModel| m@) == catalog(),
{
    let known = known_models();
    let mut models: Vec<RemoteModel> = Vec::new();
    let mut i: usize = 0;
    while i < known.len()
        invariant
            i <= known.len(),
            names(known@) == model_names(),
            models@.len() == i,
            forall|k: int| 0 <= k < i ==> (#[trigger] models@[k])@ == catalog()[k],
        decreases known.len() - i,
    {
        let name = known[i];
        assert(names(known@)[i as int] == name@);
        models.push(
            RemoteModel { name, page: model_page(HF_ORG, name), command: download_hint(name) },
        );
        i += 1;
    }
    assert(names(known@).len() == known@.len());
    assert(models@.map_values(|m: RemoteModel| m@) =~= catalog());
    models
}

/// The next step of `list models [--remote]`, for a user whose home
/// directory is `home`.
pub fn execute(target: ListTarget, home: Option<&str>, facts: &ListFacts) -> (step: ListStep)
    ensures
        step@ == next_step(target, opt_text(home), *facts),
{
    match target {
        ListTarget::Models { remote } => {
            if remote {
                return ListStep::Done(ListReport::Remote(list_remote_models()));
            }
        },
    }
    let home_dir = match home {
        Some(h) => h,
        None => {
            return ListStep::Fail(StoreError::NoHomeDirectory);
        },
    };
    let yuuki_dir = join(home_dir, ".yuuki");
    let models_dir = join(yuuki_dir.as_str(), "models");
    if !facts.store_ready {
        return ListStep::OpenStore { yuuki_dir, models_dir };
    }
    match &facts.scan {
        None => ListStep::ScanStore(models_dir),
        Some(scan) => match list_local_models(scan) {
            Ok(listing) => ListStep::Done(ListReport::Local { listing, location: models_dir }),
            Err(error) => ListStep::Fail(error),
        },
    }
}

/// A listing asks only for what is not known yet, so that each answer
/// brings it further.
pub proof fn asks_only_for_what_is_unknown(
    target: ListTarget,
    home: Option<Seq<char>>,
    facts: ListFacts,
)
    ensures
        match next_step(target, home, facts) {
            ListStepView::OpenStore { .. } => !facts.store_ready,
            ListStepView::ScanStore(_) => facts.scan is None,
            _ => true,
        },
{
}

} // verus!
