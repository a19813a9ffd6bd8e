//! The naming tables: which models exist, under which organizations they are
//! published, which quantization tags are usual, and how a model and a tag
//! become a file name, a hub address or a runtime reference.

use crate::text::{lowercase, lowercase_of, names, same_text, uppercase, uppercase_of};
use vstd::prelude::*;

verus! {

/// The organization that publishes the models on the hub.
pub const HF_ORG: &'static str = "OpceanAI";

/// The namespace under which the models are published for Ollama.
pub const OLLAMA_ORG: &'static str = "aguitachan3";

/// The address of the hosted inference service.
pub const YUUKI_API: &'static str = "https://huggingface.co/spaces/OpceanAI/Yuuki-api";

/// The names of the known models, in the order in which they are shown.
pub open spec fn model_names() -> Seq<Seq<char>> {
    seq!["Yuuki-best"@, "Yuuki-3.7"@, "Yuuki-v0.1"@]
}

/// The usual quantization tags, smallest first.
pub open spec fn quant_tags() -> Seq<Seq<char>> {
    seq!["q4_0"@, "q4_k_m"@, "q5_k_m"@, "q8_0"@, "f32"@]
}

/// `name` is, letter for letter, the name of a known model.
pub open spec fn known_model(name: Seq<char>) -> bool {
    model_names().contains(name)
}

/// The file that holds the weights of a model in one quantization, given the
/// model's name in lowercase.
pub open spec fn artifact_name(stem: Seq<char>, quant: Seq<char>) -> Seq<char> {
    stem + "-"@ + quant + ".gguf"@
}

/// The address from which the hub serves `filename` of `org`'s `model`.
pub open spec fn remote_url_text(
    org: Seq<char>,
    model: Seq<char>,
    filename: Seq<char>,
) -> Seq<char> {
    "https://huggingface.co/"@ + org + "/"@ + model + "/resolve/main/"@ + filename
}

/// The hub page of `org`'s `model`.
pub open spec fn model_page_text(org: Seq<char>, model: Seq<char>) -> Seq<char> {
    "https://huggingface.co/"@ + org + "/"@ + model
}

/// `org/name:tag`, the form in which a runtime is told what to load.
pub open spec fn reference_text(org: Seq<char>, name: Seq<char>, tag: Seq<char>) -> Seq<char> {
    org + "/"@ + name + ":"@ + tag
}

/// The known models.
pub fn known_models() -> (list: Vec<&'static str>)
    ensures
        names(list@) == model_names(),
{
    let list = vec!["Yuuki-best", "Yuuki-3.7", "Yuuki-v0.1"];
    assert(names(list@) =~= model_names());
    list
}

/// The usual quantization tags.
pub fn available_quants() -> (tags: Vec<&'static str>)
    ensures
        names(tags@) == quant_tags(),
{
    let tags = vec!["q4_0", "q4_k_m", "q5_k_m", "q8_0", "f32"];
    assert(names(tags@) =~= quant_tags());
    tags
}

/// Whether `name` is a known model. The comparison is exact: case matters.
pub fn validate(name: &str) -> (known: bool)
    ensures
        known == known_model(name@),
{
    let known = same_text(name, "Yuuki-best") || same_text(name, "Yuuki-3.7") || same_text(
        name,
        "Yuuki-v0.1",
    );
    proof {
        let names = model_names();
        assert(names[0] == "Yuuki-best"@ && names[1] == "Yuuki-3.7"@ && names[2]
            == "Yuuki-v0.1"@);
    }
    known
}

/// The file name of an artifact, from the model's lowercase name and the tag.
pub fn filename_for(stem: &str, quant: &str) -> (name: String)
    ensures
        name@ == artifact_name(stem@, quant@),
{
    let mut name = String::from_str(stem);
    name.append("-");
    name.append(quant);
    name.append(".gguf");
    name
}

/// The file name of `model`'s artifact in quantization `quant`: the model's
/// name in lowercase, a hyphen, the tag, and the extension `.gguf`.
pub fn artifact_filename(model: &str, quant: &str) -> (name: String)
    ensures
        name@ == artifact_name(lowercase_of(model@), quant@),
{
    let stem = lowercase(model);
    filename_for(stem.as_str(), quant)
}

/// The address from which the hub serves `filename` of `org`'s `model`.
pub fn remote_url(org: &str, model: &str, filename: &str) -> (url: String)
    ensures
        url@ == remote_url_text(org@, model@, filename@),
{
    let mut url = String::from_str("https://huggingface.co/");
    url.append(org);
    url.append("/");
    url.append(model);
    url.append("/resolve/main/");
    url.append(filename);
    url
}

/// The hub page of `org`'s `model`.
pub fn model_page(org: &str, model: &str) -> (url: String)
    ensures
        url@ == model_page_text(org@, model@),
{
    let mut url = String::from_str("https://huggingface.co/");
    url.append(org);
    url.append("/");
    url.append(model);
    url
}

/// `org/name:tag`.
pub fn reference(org: &str, name: &str, tag: &str) -> (text: String)
    ensures
        text@ == reference_text(org@, name@, tag@),
{
    let mut text = String::from_str(org);
    text.append("/");
    text.append(name);
    text.append(":");
    text.append(tag);
    text
}

/// The name under which Ollama knows a model: the organization, the model's
/// name in lowercase, and the tag as given.
pub fn ollama_reference(org: &str, model: &str, quant: &str) -> (text: String)
    ensures
        text@ == reference_text(org@, lowercase_of(model@), quant@),
{
    let name = lowercase(model);
    reference(org, name.as_str(), quant)
}

/// The name under which the hub streams a model: the organization, the
/// model's name as given, and the tag in uppercase.
pub fn hub_reference(org: &str, model: &str, quant: &str) -> (text: String)
    ensures
        text@ == reference_text(org@, model@, uppercase_of(quant@)),
{
    let tag = uppercase(quant);
    reference(org, model, tag.as_str())
}

} // verus!
