use yuy::registry::{
    artifact_filename, available_quants, filename_for, hub_reference, known_models, model_page,
    ollama_reference, reference, remote_url, validate, HF_ORG, OLLAMA_ORG, YUUKI_API,
};

#[test]
fn validate_accepts_each_known_model() {
    assert!(validate("Yuuki-best"));
    assert!(validate("Yuuki-3.7"));
    assert!(validate("Yuuki-v0.1"));
}

#[test]
fn validate_rejects_unknown_names() {
    assert!(!validate(""));
    assert!(!validate("yuuki-best"));
    assert!(!validate("Yuuki-best "));
    assert!(!validate("Yuuki"));
    assert!(!validate("Llama-3"));
}

#[test]
fn known_models_in_order() {
    assert_eq!(known_models(), vec!["Yuuki-best", "Yuuki-3.7", "Yuuki-v0.1"]);
}

#[test]
fn available_quants_in_order() {
    assert_eq!(available_quants(), vec!["q4_0", "q4_k_m", "q5_k_m", "q8_0", "f32"]);
}

#[test]
fn organizations_and_service() {
    assert_eq!(HF_ORG, "OpceanAI");
    assert_eq!(OLLAMA_ORG, "aguitachan3");
    assert_eq!(YUUKI_API, "https://huggingface.co/spaces/OpceanAI/Yuuki-api");
}

#[test]
fn remote_url_composes_the_hub_address() {
    assert_eq!(
        remote_url("OpceanAI", "Yuuki-best", "Yuuki-best-q4_0.gguf"),
        "https://huggingface.co/OpceanAI/Yuuki-best/resolve/main/Yuuki-best-q4_0.gguf"
    );
    assert_eq!(
        remote_url("org", "m", "f"),
        "https://huggingface.co/org/m/resolve/main/f"
    );
}

#[test]
fn remote_url_is_the_same_on_each_call() {
    let first = remote_url(HF_ORG, "Yuuki-3.7", "yuuki-3.7-q8_0.gguf");
    let second = remote_url(HF_ORG, "Yuuki-3.7", "yuuki-3.7-q8_0.gguf");
    assert_eq!(first, second);
}

#[test]
fn model_page_is_under_the_organization() {
    assert_eq!(model_page(HF_ORG, "Yuuki-v0.1"), "https://huggingface.co/OpceanAI/Yuuki-v0.1");
}

#[test]
fn filename_for_joins_stem_tag_and_extension() {
    assert_eq!(filename_for("yuuki-best", "q4_0"), "yuuki-best-q4_0.gguf");
    assert_eq!(filename_for("", ""), "-.gguf");
}

#[test]
fn artifact_filename_lowercases_the_model() {
    assert_eq!(artifact_filename("Yuuki-best", "q4_0"), "yuuki-best-q4_0.gguf");
    assert_eq!(artifact_filename("Yuuki-3.7", "Q8_0"), "yuuki-3.7-Q8_0.gguf");
    assert_eq!(artifact_filename("ÉCOLE", "f32"), "école-f32.gguf");
}

#[test]
fn reference_joins_with_slash_and_colon() {
    assert_eq!(reference("a", "b", "c"), "a/b:c");
}

#[test]
fn ollama_reference_lowercases_the_model() {
    assert_eq!(ollama_reference(OLLAMA_ORG, "Yuuki-best", "f32"), "aguitachan3/yuuki-best:f32");
    assert_eq!(ollama_reference("x", "ABC", "Q4"), "x/abc:Q4");
}

#[test]
fn hub_reference_uppercases_the_tag() {
    assert_eq!(hub_reference(HF_ORG, "Yuuki-best", "f32"), "OpceanAI/Yuuki-best:F32");
    assert_eq!(hub_reference("x", "Abc", "q5_k_m"), "x/Abc:Q5_K_M");
}
