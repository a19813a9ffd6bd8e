//! The local store: one directory per model under the models directory, and
//! in it one file per downloaded artifact. The functions here work on what a
//! reading of those directories found.

use crate::config::{join, joined};
use crate::error::ErrorKind;
use crate::registry::{artifact_filename, artifact_name};
use crate::text::{ends_with, has_suffix, lowercase_of};
use vstd::prelude::*;

verus! {

/// What is known of a file's size.
#[derive(Debug, Clone, PartialEq, Eq)]
pub enum FileSize {
    /// The size in bytes.
    Known(u64),
    /// The size could not be read, for this reason.
    Unreadable(String),
}

/// A file found in a model's directory.
#[derive(Debug, Clone, PartialEq, Eq)]
pub struct FileEntry {
    /// The file's name, without its directory.
    pub name: String,
    /// The file's size in bytes, or the reason why it could not be read.
    pub size: FileSize,
}

/// What the models directory holds under one name.
#[derive(Debug, Clone, PartialEq, Eq)]
pub struct StoreEntry {
    /// The entry's name, without its directory.
    pub name: String,
    /// Whether the entry is a directory.
    pub is_dir: bool,
    /// The files in the directory, where it is one and could be read.
    pub files: Option<Vec<FileEntry>>,
}

/// What a reading of the models directory found.
#[derive(Debug, Clone, PartialEq, Eq)]
pub enum Scan {
    /// There is no such directory.
    Missing,
    /// The directory holds these entries.
    Entries(Vec<StoreEntry>),
}

/// A downloaded artifact.
#[derive(Debug, Clone, PartialEq, Eq)]
pub struct Artifact {
    /// The file's name, without its directory.
    pub file_name: String,
    /// The file's size in bytes.
    pub size: u64,
}

/// An `Artifact` as plain values.
pub struct ArtifactView {
    pub file_name: Seq<char>,
    pub size: u64,
}

impl View for Artifact {
    type V = ArtifactView;

    open spec fn view(&self) -> ArtifactView {
        ArtifactView { file_name: self.file_name@, size: self.size }
    }
}

/// A model directory and the artifacts in it.
#[derive(Debug, Clone, PartialEq, Eq)]
pub struct ModelListing {
    /// The directory's name, which is the model's.
    pub name: String,
    /// The artifacts in the directory, in the order in which they were found.
    pub artifacts: Vec<Artifact>,
}

/// A `ModelListing` as plain values.
pub struct ModelListingView {
    pub name: Seq<char>,
    pub artifacts: Seq<ArtifactView>,
}

impl View for ModelListing {
    type V = ModelListingView;

    open spec fn view(&self) -> ModelListingView {
        ModelListingView { name: self.name@, artifacts: artifact_views(self.artifacts@) }
    }
}

/// What the store holds.
#[derive(Debug, Clone, PartialEq, Eq)]
pub enum Listing {
    /// The models directory is missing or holds nothing at all.
    EmptyStore,
    /// The model directories, in the order in which they were found. The list
    /// is empty where the models directory holds only plain files.
    Models(Vec<ModelListing>),
}

/// A `Listing` as plain values.
pub enum ListingView {
    EmptyStore,
    Models(Seq<ModelListingView>),
}

impl View for Listing {
    type V = ListingView;

    open spec fn view(&self) -> ListingView {
        match self {
            Listing::EmptyStore => ListingView::EmptyStore,
            Listing::Models(models) => ListingView::Models(model_views(models@)),
        }
    }
}

/// Why the store could not be looked into.
#[derive(Debug, Clone, PartialEq, Eq)]
pub enum StoreError {
    /// The user has no home directory.
    NoHomeDirectory,
    /// The size of the artifact `name` could not be read, for this reason.
    Unreadable { name: String, reason: String },
}

/// A `StoreError` as plain values.
pub enum StoreErrorView {
    NoHomeDirectory,
    Unreadable { name: Seq<char>, reason: Seq<char> },
}

impl View for StoreError {
    type V = StoreErrorView;

    open spec fn view(&self) -> StoreErrorView {
        match self {
            StoreError::NoHomeDirectory => StoreErrorView::NoHomeDirectory,
            StoreError::Unreadable { name, reason } => StoreErrorView::Unreadable {
                name: name@,
                reason: reason@,
            },
        }
    }
}

impl StoreError {
    /// The class of the failure.
    pub fn kind(&self) -> (kind: ErrorKind)
        ensures
            kind == ErrorKind::Io,
    {
        ErrorKind::Io
    }

    /// The failure in words: for a size that could not be read, the reason
    /// as it was given.
    pub fn message(&self) -> (text: String)
        ensures
            text@ == (match self@ {
                StoreErrorView::NoHomeDirectory => "Could not find home directory"@,
                StoreErrorView::Unreadable { name, reason } => reason,
            }),
    {
        match self {
            StoreError::NoHomeDirectory => String::from_str("Could not find home directory"),
            StoreError::Unreadable { name, reason } => reason.clone(),
        }
    }
}

/// The artifacts of a list, as plain values.
pub open spec fn artifact_views(artifacts: Seq<Artifact>) -> Seq<ArtifactView> {
    artifacts.map_values(|a: Artifact| a@)
}

/// The model listings of a list, as plain values.
pub open spec fn model_views(models: Seq<ModelListing>) -> Seq<ModelListingView> {
    models.map_values(|m: ModelListing| m@)
}

/// A file of this name is an artifact: its name ends with `.gguf`.
pub open spec fn is_artifact(name: Seq<char>) -> bool {
    has_suffix(name, ".gguf"@)
}

/// The bytes that the files take together. A file whose size could not be
/// read counts for nothing.
pub open spec fn total_bytes(files: Seq<FileEntry>) -> nat
    decreases files.len(),
{
    if files.len() == 0 {
        0
    } else {
        let last = files.last();
        total_bytes(files.drop_last()) + (match last.size {
            FileSize::Known(size) => size as nat,
            FileSize::Unreadable(_) => 0,
        })
    }
}

/// The artifacts among the files, in their order.
pub open spec fn artifacts_among(files: Seq<FileEntry>) -> Seq<ArtifactView>
    decreases files.len(),
{
    if files.len() == 0 {
        Seq::empty()
    } else {
        let last = files.last();
        let before = artifacts_among(files.drop_last());
        if is_artifact(last.name@) && last.size is Known {
            before.push(ArtifactView { file_name: last.name@, size: last.size->Known_0 })
        } else {
            before
        }
    }
}

/// The first artifact among the files whose size could not be read, with
/// the reason, if there is one.
pub open spec fn first_unreadable(files: Seq<FileEntry>) -> Option<StoreErrorView>
    decreases files.len(),
{
    if files.len() == 0 {
        None
    } else {
        let last = files.last();
        match first_unreadable(files.drop_last()) {
            Some(failure) => Some(failure),
            None => if is_artifact(last.name@) && last.size is Unreadable {
                Some(StoreErrorView::Unreadable { name: last.name@, reason: last.size->Unreadable_0@ })
            } else {
                None
            },
        }
    }
}

/// The bytes that one entry of the models directory takes: those of its
/// files where it is a directory that could be read, nothing otherwise.
pub open spec fn entry_bytes(entry: StoreEntry) -> nat {
    if entry.is_dir && entry.files is Some {
        total_bytes(entry.files.unwrap()@)
    } else {
        0
    }
}

/// The bytes that the model directories take together.
pub open spec fn store_bytes(entries: Seq<StoreEntry>) -> nat
    decreases entries.len(),
{
    if entries.len() == 0 {
        0
    } else {
        store_bytes(entries.drop_last()) + entry_bytes(entries.last())
    }
}

/// The number of directories among the entries.
pub open spec fn directory_count(entries: Seq<StoreEntry>) -> nat
    decreases entries.len(),
{
    if entries.len() == 0 {
        0
    } else {
        directory_count(entries.drop_last()) + if entries.last().is_dir {
            1nat
        } else {
            0nat
        }
    }
}

/// How much of the store is in use.
#[derive(Debug, Clone, Copy, PartialEq, Eq, Structural)]
pub struct Usage {
    /// The number of model directories.
    pub models: usize,
    /// The bytes that their files take together.
    pub bytes: u64,
}

/// The model directories among the entries, in their order, each with its
/// artifacts. A directory that could not be read is listed without any.
pub open spec fn listed(entries: Seq<StoreEntry>) -> Seq<ModelListingView>
    decreases entries.len(),
{
    if entries.len() == 0 {
        Seq::empty()
    } else {
        let last = entries.last();
        let before = listed(entries.drop_last());
        if last.is_dir {
            before.push(
                ModelListingView {
                    name: last.name@,
                    artifacts: match last.files {
                        Some(files) => artifacts_among(files@),
                        None => Seq::empty(),
                    },
                },
            )
        } else {
            before
        }
    }
}

/// The first artifact in the model directories whose size could not be
/// read, if there is one.
pub open spec fn first_failure(entries: Seq<StoreEntry>) -> Option<StoreErrorView>
    decreases entries.len(),
{
    if entries.len() == 0 {
        None
    } else {
        let last = entries.last();
        match first_failure(entries.drop_last()) {
            Some(failure) => Some(failure),
            None => if last.is_dir && last.files is Some {
                first_unreadable(last.files.unwrap()@)
            } else {
                None
            },
        }
    }
}

/// What the store holds, by what a reading of it found: a store without
/// its directory, or with nothing at all in it, is empty; otherwise its
/// model directories are listed, unless an artifact's size is unreadable.
pub open spec fn listing_of(scan: Scan) -> Result<ListingView, StoreErrorView> {
    match scan {
        Scan::Missing => Ok(ListingView::EmptyStore),
        Scan::Entries(entries) => if entries@.len() == 0 {
            Ok(ListingView::EmptyStore)
        } else {
            match first_failure(entries@) {
                Some(failure) => Err(failure),
                None => Ok(ListingView::Models(listed(entries@))),
            }
        },
    }
}

/// The directory of the model `name` under `models_dir`.
pub fn model_dir(models_dir: &str, name: &str) -> (dir: String)
    ensures
        dir@ == joined(models_dir@, name@),
{
    join(models_dir, name)
}

/// The file of `model`'s artifact in quantization `quant` under
/// `models_dir`: the model's directory, then the artifact's file name.
pub fn artifact_path(models_dir: &str, model: &str, quant: &str) -> (path: String)
    ensures
        path@ == joined(
            joined(models_dir@, model@),
            artifact_name(lowercase_of(model@), quant@),
        ),
{
    let dir = join(models_dir, model);
    let name = artifact_filename(model, quant);
    join(dir.as_str(), name.as_str())
}

/// Whether a file of this name is an artifact.
pub fn is_artifact_file(name: &str) -> (artifact: bool)
    ensures
        artifact == is_artifact(name@),
{
    ends_with(name, ".gguf")
}

/// The bytes that the files of a model directory take together, one level
/// deep; nothing for a directory that does not exist.
pub fn total_size(files: Option<&Vec<FileEntry>>) -> (bytes: u64)
    requires
        files is Some ==> total_bytes(files.unwrap()@) <= u64::MAX,
    ensures
        bytes == (match files {
            Some(f) => total_bytes(f@),
            None => 0,
        }),
{
    match files {
        None => 0,
        Some(f) => {
            let mut bytes: u64 = 0;
            let mut i: usize = 0;
            assert(f@.take(0) =~= Seq::<FileEntry>::empty());
            while i < f.len()
                invariant
                    i <= f.len(),
                    bytes == total_bytes(f@.take(i as int)),
                    total_bytes(f@) <= u64::MAX,
                decreases f.len() - i,
            {
                proof {
                    assert(f@.take(i + 1).drop_last() =~= f@.take(i as int));
                    lemma_total_grows(f@, i + 1);
                }
                match &f[i].size {
                    FileSize::Known(size) => {
                        bytes = bytes + *size;
                    },
                    FileSize::Unreadable(_) => {},
                }
                i += 1;
            }
            assert(f@.take(f.len() as int) =~= f@);
            bytes
        },
    }
}

/// The bytes that the files take together, where the sum fits the counter.
pub fn checked_total(files: &Vec<FileEntry>) -> (bytes: Option<u64>)
    ensures
        bytes is Some <==> total_bytes(files@) <= u64::MAX,
        bytes is Some ==> bytes.unwrap() == total_bytes(files@),
{
    let mut bytes: u64 = 0;
    let mut i: usize = 0;
    assert(files@.take(0) =~= Seq::<FileEntry>::empty());
    while i < files.len()
        invariant
            i <= files.len(),
            bytes == total_bytes(files@.take(i as int)),
        decreases files.len() - i,
    {
        proof {
            assert(files@.take(i + 1).drop_last() =~= files@.take(i as int));
            lemma_total_grows(files@, i + 1);
        }
        match &files[i].size {
            FileSize::Known(size) => {
                if *size > u64::MAX - bytes {
                    return None;
                }
                bytes = bytes + *size;
            },
            FileSize::Unreadable(_) => {},
        }
        i += 1;
    }
    assert(files@.take(files.len() as int) =~= files@);
    Some(bytes)
}

/// The files up to any point take no more than all of them.
pub proof fn lemma_total_grows(files: Seq<FileEntry>, upto: int)
    requires
        0 <= upto <= files.len(),
    ensures
        total_bytes(files.take(upto)) <= total_bytes(files),
    decreases files.len(),
{
    if upto == files.len() {
        assert(files.take(upto) =~= files);
    } else {
        assert(files.drop_last().take(upto) =~= files.take(upto));
        lemma_total_grows(files.drop_last(), upto);
    }
}

/// The entries up to any point take no more than all of them, and hold no
/// more directories than there are entries.
pub proof fn lemma_store_grows(entries: Seq<StoreEntry>, upto: int)
    requires
        0 <= upto <= entries.len(),
    ensures
        store_bytes(entries.take(upto)) <= store_bytes(entries),
        directory_count(entries.take(upto)) <= upto,
    decreases entries.len(),
{
    if upto == entries.len() {
        assert(entries.take(upto) =~= entries);
        if upto > 0 {
            assert(entries.drop_last() =~= entries.take(upto - 1));
            lemma_store_grows(entries.drop_last(), upto - 1);
            assert(entries.drop_last().take(upto - 1) =~= entries.drop_last());
        }
    } else {
        assert(entries.drop_last().take(upto) =~= entries.take(upto));
        lemma_store_grows(entries.drop_last(), upto);
    }
}

/// How much of the store is in use: the number of model directories, and
/// the bytes of the files in them, one level deep.
pub fn usage(entries: &Vec<StoreEntry>) -> (used: Usage)
    requires
        store_bytes(entries@) <= u64::MAX,
    ensures
        used.models == directory_count(entries@),
        used.bytes == store_bytes(entries@),
{
    let mut models: usize = 0;
    let mut bytes: u64 = 0;
    let mut i: usize = 0;
    assert(entries@.take(0) =~= Seq::<StoreEntry>::empty());
    while i < entries.len()
        invariant
            i <= entries.len(),
            models == directory_count(entries@.take(i as int)),
            bytes == store_bytes(entries@.take(i as int)),
            store_bytes(entries@) <= u64::MAX,
        decreases entries.len() - i,
    {
        proof {
            assert(entries@.take(i + 1).drop_last() =~= entries@.take(i as int));
            lemma_store_grows(entries@, i + 1);
            lemma_store_grows(entries@, i as int);
        }
        let entry = &entries[i];
        if entry.is_dir {
            models = models + 1;
            match &entry.files {
                Some(files) => {
                    bytes = bytes + total_size(Some(files));
                },
                None => {},
            }
        }
        i += 1;
    }
    assert(entries@.take(entries.len() as int) =~= entries@);
    Usage { models, bytes }
}

/// How much of the store is in use, where the bytes fit the counter.
pub fn checked_usage(entries: &Vec<StoreEntry>) -> (used: Option<Usage>)
    ensures
        used is Some <==> store_bytes(entries@) <= u64::MAX,
        used is Some ==> used.unwrap().models == directory_count(entries@) && used.unwrap().bytes
            == store_bytes(entries@),
{
    let mut models: usize = 0;
    let mut bytes: u64 = 0;
    let mut i: usize = 0;
    assert(entries@.take(0) =~= Seq::<StoreEntry>::empty());
    while i < entries.len()
        invariant
            i <= entries.len(),
            models == directory_count(entries@.take(i as int)),
            bytes == store_bytes(entries@.take(i as int)),
        decreases entries.len() - i,
    {
        proof {
            assert(entries@.take(i + 1).drop_last() =~= entries@.take(i as int));
            lemma_store_grows(entries@, i + 1);
            lemma_store_grows(entries@, i as int);
        }
        let entry = &entries[i];
        if entry.is_dir {
            models = models + 1;
            match &entry.files {
                Some(files) => {
                    match checked_total(files) {
                        Some(more) => {
                            if more > u64::MAX - bytes {
                                return None;
                            }
                            bytes = bytes + more;
                        },
                        None => {
                            return None;
                        },
                    }
                },
                None => {},
            }
        }
        i += 1;
    }
    assert(entries@.take(entries.len() as int) =~= entries@);
    Some(Usage { models, bytes })
}

/// The artifacts in a model directory, in the order in which they were
/// found. Fails on the first artifact whose size could not be read; what is
/// unreadable but no artifact is passed over.
pub fn artifacts(files: &Vec<FileEntry>) -> (found: Result<Vec<Artifact>, StoreError>)
    ensures
        match found {
            Ok(list) => first_unreadable(files@) is None && artifact_views(list@)
                == artifacts_among(files@),
            Err(e) => first_unreadable(files@) == Some(e@),
        },
{
    let mut list: Vec<Artifact> = Vec::new();
    let mut i: usize = 0;
    assert(files@.take(0) =~= Seq::<FileEntry>::empty());
    assert(artifact_views(list@) =~= artifacts_among(files@.take(0)));
    while i < files.len()
        invariant
            i <= files.len(),
            first_unreadable(files@.take(i as int)) is None,
            artifact_views(list@) == artifacts_among(files@.take(i as int)),
        decreases files.len() - i,
    {
        proof {
            assert(files@.take(i + 1).drop_last() =~= files@.take(i as int));
        }
        let file = &files[i];
        if is_artifact_file(file.name.as_str()) {
            match &file.size {
                FileSize::Known(size) => {
                    let ghost before = list@;
                    let artifact = Artifact { file_name: file.name.clone(), size: *size };
                    list.push(artifact);
                    assert(artifact_views(list@) =~= artifact_views(before).push(artifact@));
                },
                FileSize::Unreadable(reason) => {
                    proof {
                        lemma_unreadable_stays(files@, i + 1);
                    }
                    return Err(
                        StoreError::Unreadable { name: file.name.clone(), reason: reason.clone() },
                    );
                },
            }
        }
        i += 1;
    }
    assert(files@.take(files.len() as int) =~= files@);
    Ok(list)
}

/// The first failure in a beginning of the entries is the first in all of
/// them.
pub proof fn lemma_failure_stays(entries: Seq<StoreEntry>, upto: int)
    requires
        0 <= upto <= entries.len(),
        first_failure(entries.take(upto)) is Some,
    ensures
        first_failure(entries) == first_failure(entries.take(upto)),
    decreases entries.len(),
{
    if upto == entries.len() {
        assert(entries.take(upto) =~= entries);
    } else {
        assert(entries.drop_last().take(upto) =~= entries.take(upto));
        lemma_failure_stays(entries.drop_last(), upto);
    }
}

/// The first unreadable artifact of a beginning of the files is the first of
/// all of them.
pub proof fn lemma_unreadable_stays(files: Seq<FileEntry>, upto: int)
    requires
        0 <= upto <= files.len(),
        first_unreadable(files.take(upto)) is Some,
    ensures
        first_unreadable(files) == first_unreadable(files.take(upto)),
    decreases files.len(),
{
    if upto == files.len() {
        assert(files.take(upto) =~= files);
    } else {
        assert(files.drop_last().take(upto) =~= files.take(upto));
        lemma_unreadable_stays(files.drop_last(), upto);
    }
}

/// Every directory is listed, with or without artifacts, and nothing else
/// is: the listing has as many models as the entries have directories.
pub proof fn every_directory_is_listed(entries: Seq<StoreEntry>)
    ensures
        listed(entries).len() == directory_count(entries),
    decreases entries.len(),
{
    if entries.len() > 0 {
        every_directory_is_listed(entries.drop_last());
    }
}

/// What is listed as an artifact is one: each file among the artifacts of a
/// directory has a name that ends with `.gguf`, and there are no more of
/// them than files.
pub proof fn artifacts_are_gguf_files(files: Seq<FileEntry>)
    ensures
        artifacts_among(files).len() <= files.len(),
        forall|i: int|
            0 <= i < artifacts_among(files).len() ==> is_artifact(
                #[trigger] artifacts_among(files)[i].file_name,
            ),
    decreases files.len(),
{
    if files.len() > 0 {
        artifacts_are_gguf_files(files.drop_last());
    }
}

/// An empty store is told apart from a store whose directories hold no
/// artifacts: the store counts as empty only where its directory is missing
/// or holds nothing at all.
pub proof fn empty_store_means_no_entries(scan: Scan)
    ensures
        listing_of(scan) == Ok::<ListingView, StoreErrorView>(ListingView::EmptyStore) <==> (
        scan is Missing || scan->Entries_0@.len() == 0),
{
}

} // verus!
