//! `download`: fetch a model's artifact from the hub into the local store.

use crate::config::{get_models_dir, joined, models_dir_of};
use crate::error::ErrorKind;
use crate::platform::{recommend_quantization, recommended_tag, Platform};
use crate::registry::{
    artifact_name, filename_for, known_model, known_models, model_names, remote_url,
    remote_url_text, validate, HF_ORG,
};
use crate::store::model_dir;
use crate::text::{
    decimal, decimal_digits, lowercase, lowercase_of, names, occurs_at, opt_text,
};
use vstd::prelude::*;

verus! {

/// What the hub said before it sent the body.
#[derive(Debug, Clone, Copy, PartialEq, Eq)]
pub struct Response {
    /// The HTTP status.
    pub status: u16,
    /// The length of the body, where the hub declared one.
    pub content_length: Option<u64>,
}

/// What is known so far of a download.
#[derive(Debug, Clone, Copy, PartialEq, Eq)]
pub struct DownloadFacts {
    /// The model's directory has been made.
    pub prepared: bool,
    /// The hub's answer, once it has come.
    pub response: Option<Response>,
    /// The body has been written to the end.
    pub finished: bool,
}

/// What is to be fetched, from where and to where.
#[derive(Debug, Clone, PartialEq, Eq)]
pub struct Plan {
    /// The model.
    pub model: String,
    /// The quantization.
    pub quantization: String,
    /// Whether the quantization was chosen for the host, not by the user.
    pub auto_selected: bool,
    /// The model's directory in the store.
    pub directory: String,
    /// The artifact's file name.
    pub filename: String,
    /// The address of the artifact on the hub.
    pub url: String,
    /// The artifact's file in the store.
    pub destination: String,
}

/// A `Plan` as plain values.
pub struct PlanView {
    pub model: Seq<char>,
    pub quantization: Seq<char>,
    pub auto_selected: bool,
    pub directory: Seq<char>,
    pub filename: Seq<char>,
    pub url: Seq<char>,
    pub destination: Seq<char>,
}

impl View for Plan {
    type V = PlanView;

    open spec fn view(&self) -> PlanView {
        PlanView {
            model: self.model@,
            quantization: self.quantization@,
            auto_selected: self.auto_selected,
            directory: self.directory@,
            filename: self.filename@,
            url: self.url@,
            destination: self.destination@,
        }
    }
}

/// Why a download failed.
#[derive(Debug, Clone, Copy, PartialEq, Eq, Structural)]
pub enum DownloadError {
    /// The user has no home directory.
    NoHomeDirectory,
    /// The hub answered with this status, which is not a success.
    Status(u16),
    /// The hub did not declare the length of the body.
    SizeUnknown,
}

/// The next step of a download.
#[derive(Debug, Clone, PartialEq, Eq)]
pub enum DownloadStep {
    /// The model is not a known one; these are. The name failed validation
    /// before anything was touched, and the command ends here.
    UnknownModel { model: String, available: Vec<&'static str> },
    /// Make the model's directory, with the directories above it.
    Prepare(Plan),
    /// Ask the hub for the artifact.
    Fetch(Plan),
    /// Write the body, which is declared `total` bytes long, to the
    /// destination, replacing what is there.
    Receive { plan: Plan, total: u64 },
    /// The artifact is in the store.
    Done { destination: String, size: u64 },
    /// The download failed.
    Fail(DownloadError),
}

/// A `DownloadStep` as plain values.
pub enum DownloadStepView {
    UnknownModel { model: Seq<char>, available: Seq<Seq<char>> },
    Prepare(PlanView),
    Fetch(PlanView),
    Receive { plan: PlanView, total: u64 },
    Done { destination: Seq<char>, size: u64 },
    Fail(DownloadError),
}

impl View for DownloadStep {
    type V = DownloadStepView;

    open spec fn view(&self) -> DownloadStepView {
        match self {
            DownloadStep::UnknownModel { model, available } => DownloadStepView::UnknownModel {
                model: model@,
                available: names(available@),
            },
            DownloadStep::Prepare(plan) => DownloadStepView::Prepare(plan@),
            DownloadStep::Fetch(plan) => DownloadStepView::Fetch(plan@),
            DownloadStep::Receive { plan, total } => DownloadStepView::Receive {
                plan: plan@,
                total: *total,
            },
            DownloadStep::Done { destination, size } => DownloadStepView::Done {
                destination: destination@,
                size: *size,
            },
            DownloadStep::Fail(e) => DownloadStepView::Fail(*e),
        }
    }
}

/// The bytes of a body that have been written so far.
#[derive(Debug, Clone, Copy, PartialEq, Eq, Structural)]
pub struct Transfer {
    /// The length that the hub declared.
    pub total: u64,
    /// The bytes written so far. Nothing holds them to the declared length.
    pub received: u64,
}

/// The phrase that `reqwest::StatusCode` displays after the number of a
/// status: the one that goes with the number, or a fixed placeholder for a
/// number that has none.
pub uninterp spec fn reason_phrase(code: u16) -> Seq<char>;

/// The words for a status in a message: its number, and, where the number
/// is one that HTTP allows, 100 to 999, a space and the phrase of the
/// status.
pub open spec fn status_words(code: u16) -> Seq<char> {
    if 100 <= code <= 999 {
        decimal_digits(code as nat) + " "@ + reason_phrase(code)
    } else {
        decimal_digits(code as nat)
    }
}

/// The message for an answer whose status, in words, is `status`.
pub open spec fn refusal_text(status: Seq<char>) -> Seq<char> {
    "Failed to download: HTTP "@ + status
        + " - Model file might not exist yet. Try checking HuggingFace."@
}

/// The message of a failure.
pub open spec fn message_text(error: DownloadError) -> Seq<char> {
    match error {
        DownloadError::NoHomeDirectory => "Could not find home directory"@,
        DownloadError::Status(code) => refusal_text(status_words(code)),
        DownloadError::SizeUnknown => "Failed to get content length"@,
    }
}

/// A status of the success class, 200 to 299.
pub open spec fn success_status(status: u16) -> bool {
    200 <= status < 300
}

/// The plan for `model`, whose name in lowercase is `stem`, in the
/// quantization asked for, or, where none was asked for, in the one advised
/// for the host.
pub open spec fn plan_of(
    model: Seq<char>,
    stem: Seq<char>,
    quant: Option<Seq<char>>,
    platform: Platform,
    ram_gb: int,
    home: Seq<char>,
) -> PlanView {
    let quantization = match quant {
        Some(q) => q,
        None => recommended_tag(platform, ram_gb),
    };
    let directory = joined(models_dir_of(home), model);
    let filename = artifact_name(stem, quantization);
    PlanView {
        model,
        quantization,
        auto_selected: quant is None,
        directory,
        filename,
        url: remote_url_text(HF_ORG@, model, filename),
        destination: joined(directory, filename),
    }
}

/// What the hub's answer allows: the declared length of the body, or the
/// reason why nothing can be received.
pub open spec fn admitted(response: Response) -> Result<u64, DownloadError> {
    if !success_status(response.status) {
        Err(DownloadError::Status(response.status))
    } else {
        match response.content_length {
            Some(total) => Ok(total),
            None => Err(DownloadError::SizeUnknown),
        }
    }
}

/// The next step of a download of `model`, whose name in lowercase is
/// `stem`, by what is known so far. An unknown model ends it before anything
/// is touched; then, in this order, the directory is made, the hub is asked,
/// its answer is judged, the body is written.
pub open spec fn next_step(
    model: Seq<char>,
    stem: Seq<char>,
    quant: Option<Seq<char>>,
    platform: Platform,
    ram_gb: int,
    home: Option<Seq<char>>,
    facts: DownloadFacts,
) -> DownloadStepView {
    if !known_model(model) {
        DownloadStepView::UnknownModel { model, available: model_names() }
    } else if home is None {
        DownloadStepView::Fail(DownloadError::NoHomeDirectory)
    } else {
        let plan = plan_of(model, stem, quant, platform, ram_gb, home.unwrap());
        if !facts.prepared {
            DownloadStepView::Prepare(plan)
        } else if facts.response is None {
            DownloadStepView::Fetch(plan)
        } else {
            match admitted(facts.response.unwrap()) {
                Err(e) => DownloadStepView::Fail(e),
                Ok(total) => if !facts.finished {
                    DownloadStepView::Receive { plan, total }
                } else {
                    DownloadStepView::Done { destination: plan.destination, size: total }
                },
            }
        }
    }
}

/// Writes a status out through `reqwest::StatusCode`: `from_u16`, then its
/// `Display`. Trusted: `from_u16` accepts exactly the numbers 100 to 999;
/// what is displayed is the number in decimal, a space, and a phrase that
/// depends on the number alone. This library names the phrase and does not
/// define it.
#[verifier::external_body]
fn status_text(code: u16) -> (text: Option<String>)
    ensures
        text is Some <==> 100 <= code <= 999,
        text is Some ==> text.unwrap()@ == decimal_digits(code as nat) + " "@ + reason_phrase(
            code,
        ),
{
    match reqwest::StatusCode::from_u16(code) {
        Ok(status) => Some(status.to_string()),
        Err(_) => None,
    }
}

/// The message for an answer whose status, in words, is `status`.
pub fn refusal(status: &str) -> (text: String)
    ensures
        text@ == refusal_text(status@),
{
    let mut text = String::from_str("Failed to download: HTTP ");
    text.append(status);
    text.append(" - Model file might not exist yet. Try checking HuggingFace.");
    text
}

impl DownloadError {
    /// The class of the failure: what the hub answered is a remote failure,
    /// a missing home directory one of the file system.
    pub fn kind(&self) -> (kind: ErrorKind)
        ensures
            kind == (match self {
                DownloadError::NoHomeDirectory => ErrorKind::Io,
                DownloadError::Status(_) => ErrorKind::Remote,
                DownloadError::SizeUnknown => ErrorKind::Remote,
            }),
    {
        match self {
            DownloadError::NoHomeDirectory => ErrorKind::Io,
            DownloadError::Status(_) => ErrorKind::Remote,
            DownloadError::SizeUnknown => ErrorKind::Remote,
        }
    }

    /// The failure in words. A refused download names the status.
    pub fn message(&self) -> (text: String)
        ensures
            text@ == message_text(*self),
    {
        match self {
            DownloadError::NoHomeDirectory => String::from_str("Could not find home directory"),
            DownloadError::Status(code) => {
                match status_text(*code) {
                    Some(words) => refusal(words.as_str()),
                    None => {
                        let words = decimal(*code as u64);
                        refusal(words.as_str())
                    },
                }
            },
            DownloadError::SizeUnknown => String::from_str("Failed to get content length"),
        }
    }
}

impl Transfer {
    /// A transfer of which nothing has been written yet. What the
    /// destination held before does not count: there is no resuming.
    pub fn new(total: u64) -> (transfer: Transfer)
        ensures
            transfer.total == total,
            transfer.received == 0,
    {
        Transfer { total, received: 0 }
    }

    /// Counts a chunk of `length` bytes that has been written, and gives the
    /// position to show: the bytes written so far.
    pub fn record(&mut self, length: usize) -> (position: u64)
        requires
            old(self).received + length <= u64::MAX,
        ensures
            final(self).total == old(self).total,
            final(self).received == old(self).received + length,
            position == final(self).received,
    {
        self.received = self.received + length as u64;
        self.received
    }

    /// Whether one more chunk of `length` bytes can be counted.
    pub fn has_room(&self, length: usize) -> (room: bool)
        ensures
            room == (self.received + length <= u64::MAX),
    {
        length as u64 <= u64::MAX - self.received
    }
}

/// Nothing is written but on a success with a declared length: a step that
/// receives the body has a known model, a home directory, and an answer of
/// the success class that says how long the body is.
pub proof fn receives_only_what_was_admitted(
    model: Seq<char>,
    stem: Seq<char>,
    quant: Option<Seq<char>>,
    platform: Platform,
    ram_gb: int,
    home: Option<Seq<char>>,
    facts: DownloadFacts,
)
    requires
        next_step(model, stem, quant, platform, ram_gb, home, facts) is Receive,
    ensures
        known_model(model),
        home is Some,
        facts.response is Some,
        success_status(facts.response.unwrap().status),
        facts.response.unwrap().content_length == Some(
            next_step(model, stem, quant, platform, ram_gb, home, facts)->Receive_total,
        ),
{
}

/// An unknown model ends a download at once, whatever else is known: the
/// step asks for no directory, no request and no file.
pub proof fn unknown_model_touches_nothing(
    model: Seq<char>,
    stem: Seq<char>,
    quant: Option<Seq<char>>,
    platform: Platform,
    ram_gb: int,
    home: Option<Seq<char>>,
    facts: DownloadFacts,
)
    requires
        !known_model(model),
    ensures
        next_step(model, stem, quant, platform, ram_gb, home, facts) == (DownloadStepView::UnknownModel {
            model,
            available: model_names(),
        }),
{
}

/// The message of a refused download carries the number of the status:
/// the numeral stands right after the words `Failed to download: HTTP `,
/// whatever the status.
pub proof fn refusal_names_the_status(code: u16)
    ensures
        occurs_at(
            message_text(DownloadError::Status(code)),
            decimal_digits(code as nat),
            "Failed to download: HTTP "@.len() as int,
        ),
{
    let head = "Failed to download: HTTP "@;
    let tail = " - Model file might not exist yet. Try checking HuggingFace."@;
    let digits = decimal_digits(code as nat);
    let words = status_words(code);
    let text = message_text(DownloadError::Status(code));
    assert(text == head + words + tail);
    assert(words.subrange(0, digits.len() as int) =~= digits);
    assert(text.subrange(head.len() as int, head.len() as int + digits.len() as int)
        =~= words.subrange(0, digits.len() as int));
}

/// A status outside the success class fails the download with that status,
/// whatever length was declared.
pub proof fn refused_status_fails(response: Response)
    requires
        !success_status(response.status),
    ensures
        admitted(response) == Err::<u64, DownloadError>(DownloadError::Status(response.status)),
{
}

/// Whether a status is of the success class.
pub fn is_success(status: u16) -> (success: bool)
    ensures
        success == success_status(status),
{
    200 <= status && status < 300
}

/// Judges the hub's answer: a status outside the success class fails with
/// that status; a success without a declared length fails too; otherwise the
/// declared length is the number of bytes to expect.
pub fn check_response(response: Response) -> (total: Result<u64, DownloadError>)
    ensures
        total == admitted(response),
{
    if !is_success(response.status) {
        Err(DownloadError::Status(response.status))
    } else {
        match response.content_length {
            Some(total) => Ok(total),
            None => Err(DownloadError::SizeUnknown),
        }
    }
}

/// Draws up the plan for a model, whose name in lowercase is `stem`, under
/// the models directory `models_dir`.
fn plan(
    model: &str,
    stem: &str,
    quant: Option<&str>,
    platform: Platform,
    ram_gb: usize,
    models_dir: &str,
) -> (plan: Plan)
    ensures
        plan@.model == model@,
        plan@.quantization == (match quant {
            Some(q) => q@,
            None => recommended_tag(platform, ram_gb as int),
        }),
        plan@.auto_selected == (quant is None),
        plan@.directory == joined(models_dir@, model@),
        plan@.filename == artifact_name(stem@, plan@.quantization),
        plan@.url == remote_url_text(HF_ORG@, model@, plan@.filename),
        plan@.destination == joined(plan@.directory, plan@.filename),
{
    let quantization = match quant {
        Some(q) => String::from_str(q),
        None => String::from_str(recommend_quantization(platform, ram_gb)),
    };
    let directory = model_dir(models_dir, model);
    let filename = filename_for(stem, quantization.as_str());
    let url = remote_url(HF_ORG, model, filename.as_str());
    let destination = crate::config::join(directory.as_str(), filename.as_str());
    Plan {
        model: String::from_str(model),
        quantization,
        auto_selected: quant.is_none(),
        directory,
        filename,
        url,
        destination,
    }
}

/// The next step of a download of `model`, whose name in lowercase is
/// `stem`, on a host of kind `platform` with `ram_gb` gigabytes of memory,
/// for a user whose home directory is `home`.
pub fn advance(
    model: &str,
    stem: &str,
    quant: Option<&str>,
    platform: Platform,
    ram_gb: usize,
    home: Option<&str>,
    facts: &DownloadFacts,
) -> (step: DownloadStep)
    ensures
        step@ == next_step(
            model@,
            stem@,
            opt_text(quant),
            platform,
            ram_gb as int,
            opt_text(home),
            *facts,
        ),
{
    if !validate(model) {
        return DownloadStep::UnknownModel {
            model: String::from_str(model),
            available: known_models(),
        };
    }
    let models_dir = match get_models_dir(home) {
        Ok(dir) => dir,
        Err(_) => {
            return DownloadStep::Fail(DownloadError::NoHomeDirectory);
        },
    };
    let plan = plan(model, stem, quant, platform, ram_gb, models_dir.as_str());
    if !facts.prepared {
        return DownloadStep::Prepare(plan);
    }
    let response = match facts.response {
        None => {
            return DownloadStep::Fetch(plan);
        },
        Some(response) => response,
    };
    match check_response(response) {
        Err(e) => DownloadStep::Fail(e),
        Ok(total) => {
            if !facts.finished {
                DownloadStep::Receive { plan, total }
            } else {
                DownloadStep::Done { destination: plan.destination, size: total }
            }
        },
    }
}

/// The next step of `download <model> [--quant <tag>]` on a host of kind
/// `platform` with `ram_gb` gigabytes of memory, for a user whose home
/// directory is `home`. The artifact's file name starts with the model's
/// name in lowercase.
pub fn execute(
    model: &str,
    quant: Option<&str>,
    platform: Platform,
    ram_gb: usize,
    home: Option<&str>,
    facts: &DownloadFacts,
) -> (step: DownloadStep)
    ensures
        step@ == next_step(
            model@,
            lowercase_of(model@),
            opt_text(quant),
            platform,
            ram_gb as int,
            opt_text(home),
            *facts,
        ),
{
    let stem = lowercase(model);
    advance(model, stem.as_str(), quant, platform, ram_gb, home, facts)
}

/// A download asks only for what is not known yet, so that each answer
/// brings it further: the directory is made while it is not made, the hub
/// is asked while it has not answered, and the body is written while it is
/// not written to the end.
pub proof fn asks_only_for_what_is_unknown(
    model: Seq<char>,
    stem: Seq<char>,
    quant: Option<Seq<char>>,
    platform: Platform,
    ram_gb: int,
    home: Option<Seq<char>>,
    facts: DownloadFacts,
)
    ensures
        match next_step(model, stem, quant, platform, ram_gb, home, facts) {
            DownloadStepView::Prepare(_) => !facts.prepared,
            DownloadStepView::Fetch(_) => facts.response is None,
            DownloadStepView::Receive { .. } => !facts.finished,
            _ => true,
        },
{
}

} // verus!
