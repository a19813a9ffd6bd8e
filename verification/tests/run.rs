use yuy::commands::run::{
    advance, execute, launch, run_with_llama_cpp, run_with_llama_hf, run_with_ollama, RunError,
    RunFacts, RunOutcome, RunStep,
};
use yuy::dispatch::Preset;
use yuy::dispatch::Runtime;
use yuy::error::ErrorKind;

const HOME: Option<&str> = Some("/home/u");

fn nothing_known() -> RunFacts {
    RunFacts {
        store_ready: false,
        directory_exists: None,
        artifact_exists: None,
        probed: Vec::new(),
        exited: None,
    }
}

fn downloaded() -> RunFacts {
    RunFacts {
        store_ready: true,
        directory_exists: Some(true),
        artifact_exists: Some(true),
        probed: Vec::new(),
        exited: None,
    }
}

#[test]
fn an_unknown_model_fails_the_run_at_once() {
    let step = execute("Yuuki-worst", None, None, None, HOME, &nothing_known());
    assert_eq!(step, RunStep::Fail(RunError::UnknownModel("Yuuki-worst".to_string())));
    let step = execute("Yuuki-worst", Some("ollama"), None, None, None, &downloaded());
    assert_eq!(step, RunStep::Fail(RunError::UnknownModel("Yuuki-worst".to_string())));
}

#[test]
fn without_a_home_the_run_fails() {
    let step = execute("Yuuki-best", None, None, None, None, &nothing_known());
    assert_eq!(step, RunStep::Fail(RunError::NoHomeDirectory));
}

#[test]
fn the_store_is_opened_first() {
    let step = execute("Yuuki-best", None, None, None, HOME, &nothing_known());
    assert_eq!(
        step,
        RunStep::OpenStore {
            yuuki_dir: "/home/u/.yuuki".to_string(),
            models_dir: "/home/u/.yuuki/models".to_string(),
        }
    );
}

#[test]
fn the_models_directory_is_looked_up() {
    let mut facts = nothing_known();
    facts.store_ready = true;
    let step = execute("Yuuki-best", None, None, None, HOME, &facts);
    assert_eq!(step, RunStep::CheckDirectory("/home/u/.yuuki/models/Yuuki-best".to_string()));
}

#[test]
fn a_model_that_is_not_downloaded_ends_the_run_without_failure() {
    let mut facts = nothing_known();
    facts.store_ready = true;
    facts.directory_exists = Some(false);
    for runtime in [None, Some("llama-cpp"), Some("llama-hf"), Some("ollama")] {
        let step = execute("Yuuki-best", runtime, None, None, HOME, &facts);
        assert_eq!(step, RunStep::Done(RunOutcome::NotDownloaded));
    }
}

#[test]
fn the_artifact_is_looked_up_with_the_default_quantization() {
    let mut facts = nothing_known();
    facts.store_ready = true;
    facts.directory_exists = Some(true);
    let step = execute("Yuuki-best", None, None, None, HOME, &facts);
    assert_eq!(
        step,
        RunStep::CheckFile {
            path: "/home/u/.yuuki/models/Yuuki-best/yuuki-best-q5_k_m.gguf".to_string(),
            filename: "yuuki-best-q5_k_m.gguf".to_string(),
        }
    );
}

#[test]
fn the_artifact_is_looked_up_with_the_quantization_asked_for() {
    let mut facts = nothing_known();
    facts.store_ready = true;
    facts.directory_exists = Some(true);
    let step = execute("Yuuki-3.7", None, Some("q8_0"), None, HOME, &facts);
    assert_eq!(
        step,
        RunStep::CheckFile {
            path: "/home/u/.yuuki/models/Yuuki-3.7/yuuki-3.7-q8_0.gguf".to_string(),
            filename: "yuuki-3.7-q8_0.gguf".to_string(),
        }
    );
}

#[test]
fn a_missing_artifact_fails_the_run() {
    let mut facts = nothing_known();
    facts.store_ready = true;
    facts.directory_exists = Some(true);
    facts.artifact_exists = Some(false);
    let step = execute("Yuuki-best", None, Some("f32"), None, HOME, &facts);
    assert_eq!(
        step,
        RunStep::Fail(RunError::ArtifactMissing {
            filename: "yuuki-best-f32.gguf".to_string(),
            model: "Yuuki-best".to_string(),
        })
    );
}

#[test]
fn an_unknown_runtime_fails_the_run_before_anything_is_started() {
    let step = execute("Yuuki-best", Some("vllm"), None, None, HOME, &downloaded());
    assert_eq!(step, RunStep::Fail(RunError::UnknownRuntime("vllm".to_string())));
}

#[test]
fn an_unknown_runtime_fails_the_run_when_nothing_is_known_yet() {
    for name in ["vllm", "Ollama", "", "llama", " ollama", "llama-cpp "] {
        let step = execute("Yuuki-best", Some(name), None, None, HOME, &nothing_known());
        assert_eq!(step, RunStep::Fail(RunError::UnknownRuntime(name.to_string())));
    }
}

#[test]
fn an_unknown_runtime_fails_the_run_where_the_model_is_not_downloaded() {
    let mut facts = nothing_known();
    facts.store_ready = true;
    facts.directory_exists = Some(false);
    let step = execute("Yuuki-best", Some("vllm"), None, None, HOME, &facts);
    assert_eq!(step, RunStep::Fail(RunError::UnknownRuntime("vllm".to_string())));
}

#[test]
fn an_unknown_runtime_fails_the_run_where_the_file_is_missing() {
    let mut facts = nothing_known();
    facts.store_ready = true;
    facts.directory_exists = Some(true);
    facts.artifact_exists = Some(false);
    let step = execute("Yuuki-best", Some("vllm"), Some("q4_0"), None, HOME, &facts);
    assert_eq!(step, RunStep::Fail(RunError::UnknownRuntime("vllm".to_string())));
}

#[test]
fn an_unknown_runtime_fails_the_run_without_a_home_too() {
    let step = execute("Yuuki-best", Some("vllm"), None, None, None, &nothing_known());
    assert_eq!(step, RunStep::Fail(RunError::UnknownRuntime("vllm".to_string())));
}

#[test]
fn an_unknown_runtime_is_a_failure_of_validation_that_names_it() {
    match execute("Yuuki-best", Some("vllm"), None, None, HOME, &nothing_known()) {
        RunStep::Fail(error) => {
            assert_eq!(error.kind(), ErrorKind::Validation);
            assert_eq!(
                error.message(),
                "Unknown runtime: vllm. Use 'llama-cpp', 'llama-hf', or 'ollama'"
            );
        }
        other => panic!("unexpected step {:?}", other),
    }
}

#[test]
fn an_unknown_runtime_fails_the_run_in_every_state_of_the_store() {
    for store_ready in [false, true] {
        for directory_exists in [None, Some(false), Some(true)] {
            for artifact_exists in [None, Some(false), Some(true)] {
                for probed in [vec![], vec![true], vec![false, false, false]] {
                    for exited in [None, Some(true), Some(false)] {
                        let facts = RunFacts {
                            store_ready,
                            directory_exists,
                            artifact_exists,
                            probed: probed.clone(),
                            exited,
                        };
                        for home in [None, HOME] {
                            assert_eq!(
                                execute("Yuuki-3.7", Some("vllm"), None, None, home, &facts),
                                RunStep::Fail(RunError::UnknownRuntime("vllm".to_string()))
                            );
                        }
                    }
                }
            }
        }
    }
}

#[test]
fn the_model_is_judged_before_the_runtime() {
    let step = execute("Yuuki-worst", Some("vllm"), None, None, HOME, &nothing_known());
    assert_eq!(step, RunStep::Fail(RunError::UnknownModel("Yuuki-worst".to_string())));
}

#[test]
fn a_known_runtime_opens_the_store_first() {
    for runtime in [None, Some("llama-cpp"), Some("llama-hf"), Some("ollama")] {
        let step = execute("Yuuki-best", runtime, None, None, HOME, &nothing_known());
        assert!(matches!(step, RunStep::OpenStore { .. }));
    }
}

#[test]
fn an_unknown_runtime_starts_nothing_whatever_is_known() {
    for probed in [vec![], vec![true], vec![false, true], vec![false, false, false]] {
        for exited in [None, Some(true), Some(false)] {
            let facts = RunFacts {
                store_ready: true,
                directory_exists: Some(true),
                artifact_exists: Some(true),
                probed: probed.clone(),
                exited,
            };
            let step = execute("Yuuki-best", Some("Llama-cpp"), None, None, HOME, &facts);
            assert_eq!(step, RunStep::Fail(RunError::UnknownRuntime("Llama-cpp".to_string())));
        }
    }
}

#[test]
fn llama_cpp_is_the_default_runtime_and_its_candidates_are_tried_in_order() {
    let mut facts = downloaded();
    assert_eq!(
        execute("Yuuki-best", None, None, None, HOME, &facts),
        RunStep::Probe("llama-cli")
    );
    facts.probed.push(false);
    assert_eq!(
        execute("Yuuki-best", None, None, None, HOME, &facts),
        RunStep::Probe("llama")
    );
    facts.probed.push(false);
    assert_eq!(
        execute("Yuuki-best", None, None, None, HOME, &facts),
        RunStep::Probe("main")
    );
    facts.probed.push(false);
    assert_eq!(
        execute("Yuuki-best", None, None, None, HOME, &facts),
        RunStep::Done(RunOutcome::NotInstalled(Runtime::LlamaCpp))
    );
}

#[test]
fn llama_cpp_is_started_on_the_artifact() {
    let mut facts = downloaded();
    facts.probed = vec![false, true];
    let step = execute("Yuuki-best", Some("llama-cpp"), None, Some("creative"), HOME, &facts);
    assert_eq!(
        step,
        RunStep::Launch {
            runtime: Runtime::LlamaCpp,
            target: "/home/u/.yuuki/models/Yuuki-best/yuuki-best-q5_k_m.gguf".to_string(),
            program: "llama",
            arguments: vec![
                "-m".to_string(),
                "/home/u/.yuuki/models/Yuuki-best/yuuki-best-q5_k_m.gguf".to_string(),
                "--interactive".to_string(),
                "--temp".to_string(),
                "0.8".to_string(),
                "--top-p".to_string(),
                "0.9".to_string(),
                "-c".to_string(),
                "4096".to_string(),
            ],
        }
    );
}

#[test]
fn llama_hf_is_started_on_the_hub_reference() {
    let mut facts = downloaded();
    facts.probed = vec![true];
    let step = execute("Yuuki-best", Some("llama-hf"), Some("f32"), Some("precise"), HOME, &facts);
    assert_eq!(
        step,
        RunStep::Launch {
            runtime: Runtime::LlamaHf,
            target: "OpceanAI/Yuuki-best:F32".to_string(),
            program: "llama-cli",
            arguments: vec![
                "-hf".to_string(),
                "OpceanAI/Yuuki-best:F32".to_string(),
                "--temp".to_string(),
                "0.3".to_string(),
                "--top-p".to_string(),
                "0.5".to_string(),
                "-c".to_string(),
                "4096".to_string(),
            ],
        }
    );
}

#[test]
fn llama_hf_has_one_candidate() {
    let mut facts = downloaded();
    facts.probed = vec![false];
    let step = execute("Yuuki-best", Some("llama-hf"), None, None, HOME, &facts);
    assert_eq!(step, RunStep::Done(RunOutcome::NotInstalled(Runtime::LlamaHf)));
}

#[test]
fn ollama_is_started_on_its_reference() {
    let mut facts = downloaded();
    assert_eq!(
        execute("Yuuki-best", Some("ollama"), Some("f32"), None, HOME, &facts),
        RunStep::Probe("ollama")
    );
    facts.probed = vec![true];
    assert_eq!(
        execute("Yuuki-best", Some("ollama"), Some("f32"), None, HOME, &facts),
        RunStep::Launch {
            runtime: Runtime::Ollama,
            target: "aguitachan3/yuuki-best:f32".to_string(),
            program: "ollama",
            arguments: vec!["run".to_string(), "aguitachan3/yuuki-best:f32".to_string()],
        }
    );
    facts.probed = vec![false];
    assert_eq!(
        execute("Yuuki-best", Some("ollama"), Some("f32"), None, HOME, &facts),
        RunStep::Done(RunOutcome::NotInstalled(Runtime::Ollama))
    );
}

#[test]
fn an_unknown_preset_runs_with_the_balanced_values() {
    let mut facts = downloaded();
    facts.probed = vec![true];
    let wild = execute("Yuuki-best", None, None, Some("wild"), HOME, &facts);
    let balanced = execute("Yuuki-best", None, None, Some("balanced"), HOME, &facts);
    let none = execute("Yuuki-best", None, None, None, HOME, &facts);
    assert_eq!(wild, balanced);
    assert_eq!(none, balanced);
    match balanced {
        RunStep::Launch { arguments, .. } => {
            assert_eq!(arguments[4], "0.6");
            assert_eq!(arguments[6], "0.7");
        }
        other => panic!("unexpected step {:?}", other),
    }
}

#[test]
fn a_runtime_that_ends_with_success_completes_the_run() {
    let mut facts = downloaded();
    facts.probed = vec![true];
    facts.exited = Some(true);
    for runtime in ["llama-cpp", "llama-hf", "ollama"] {
        let step = execute("Yuuki-best", Some(runtime), None, None, HOME, &facts);
        assert_eq!(step, RunStep::Done(RunOutcome::Completed));
    }
}

#[test]
fn a_runtime_that_ends_with_failure_fails_the_run() {
    let mut facts = downloaded();
    facts.probed = vec![true];
    facts.exited = Some(false);
    assert_eq!(
        execute("Yuuki-best", Some("llama-cpp"), None, None, HOME, &facts),
        RunStep::Fail(RunError::RuntimeFailed {
            runtime: Runtime::LlamaCpp,
            target: "/home/u/.yuuki/models/Yuuki-best/yuuki-best-q5_k_m.gguf".to_string(),
        })
    );
    assert_eq!(
        execute("Yuuki-best", Some("llama-hf"), None, None, HOME, &facts),
        RunStep::Fail(RunError::RuntimeFailed {
            runtime: Runtime::LlamaHf,
            target: "OpceanAI/Yuuki-best:Q5_K_M".to_string(),
        })
    );
    assert_eq!(
        execute("Yuuki-best", Some("ollama"), None, None, HOME, &facts),
        RunStep::Fail(RunError::RuntimeFailed {
            runtime: Runtime::Ollama,
            target: "aguitachan3/yuuki-best:q5_k_m".to_string(),
        })
    );
}

#[test]
fn a_run_from_start_to_end() {
    let mut facts = nothing_known();
    let mut seen = Vec::new();
    let last = loop {
        assert!(seen.len() < 12);
        let step = execute("Yuuki-v0.1", Some("llama-cpp"), Some("q4_0"), None, HOME, &facts);
        match &step {
            RunStep::OpenStore { .. } => facts.store_ready = true,
            RunStep::CheckDirectory(_) => facts.directory_exists = Some(true),
            RunStep::CheckFile { .. } => facts.artifact_exists = Some(true),
            RunStep::Probe(name) => facts.probed.push(*name == "main"),
            RunStep::Launch { program, .. } => {
                assert_eq!(*program, "main");
                facts.exited = Some(true);
            }
            RunStep::Done(_) | RunStep::Fail(_) => break step,
        }
        seen.push(step);
    };
    assert_eq!(last, RunStep::Done(RunOutcome::Completed));
    assert_eq!(seen.len(), 7);
}

#[test]
fn advance_takes_the_names_as_they_are_given() {
    let mut facts = downloaded();
    facts.probed = vec![true];
    assert_eq!(
        advance("Yuuki-best", "STEM", "RAISED", Some("ollama"), Some("q4_0"), None, HOME, &facts),
        RunStep::Launch {
            runtime: Runtime::Ollama,
            target: "aguitachan3/STEM:q4_0".to_string(),
            program: "ollama",
            arguments: vec!["run".to_string(), "aguitachan3/STEM:q4_0".to_string()],
        }
    );
    match advance("Yuuki-best", "STEM", "RAISED", Some("llama-hf"), Some("q4_0"), None, HOME, &facts)
    {
        RunStep::Launch { arguments, .. } => assert_eq!(arguments[1], "OpceanAI/Yuuki-best:RAISED"),
        other => panic!("unexpected step {:?}", other),
    }
    facts.artifact_exists = None;
    assert_eq!(
        advance("Yuuki-best", "STEM", "RAISED", None, Some("q4_0"), None, HOME, &facts),
        RunStep::CheckFile {
            path: "/home/u/.yuuki/models/Yuuki-best/STEM-q4_0.gguf".to_string(),
            filename: "STEM-q4_0.gguf".to_string(),
        }
    );
}

#[test]
fn each_runtime_on_its_own() {
    let mut facts = downloaded();
    assert_eq!(
        run_with_llama_cpp("/m/f.gguf", None, &facts),
        RunStep::Probe("llama-cli")
    );
    assert_eq!(run_with_llama_hf("o/m:T", None, &facts), RunStep::Probe("llama-cli"));
    assert_eq!(run_with_ollama("o/m:t", &facts), RunStep::Probe("ollama"));
    facts.probed = vec![true];
    assert_eq!(
        run_with_ollama("o/m:t", &facts),
        RunStep::Launch {
            runtime: Runtime::Ollama,
            target: "o/m:t".to_string(),
            program: "ollama",
            arguments: vec!["run".to_string(), "o/m:t".to_string()],
        }
    );
    assert_eq!(
        run_with_llama_cpp("/m/f.gguf", Some("precise"), &facts),
        launch(Runtime::LlamaCpp, "/m/f.gguf", Preset::Precise, &facts)
    );
    assert_eq!(
        run_with_llama_hf("o/m:T", Some("creative"), &facts),
        launch(Runtime::LlamaHf, "o/m:T", Preset::Creative, &facts)
    );
}

#[test]
fn run_failures_in_words() {
    assert_eq!(
        RunError::UnknownModel("X".to_string()).message(),
        "Model 'X' not found. Use 'yuy list models' to see available models."
    );
    assert_eq!(
        RunError::ArtifactMissing { filename: "x-q4_0.gguf".to_string(), model: "X".to_string() }
            .message(),
        "Model file 'x-q4_0.gguf' not found. Available quantizations may differ. Try: yuy info X"
    );
    assert_eq!(
        RunError::UnknownRuntime("vllm".to_string()).message(),
        "Unknown runtime: vllm. Use 'llama-cpp', 'llama-hf', or 'ollama'"
    );
    assert_eq!(RunError::NoHomeDirectory.message(), "Could not find home directory");
    for (runtime, words) in [
        (Runtime::LlamaCpp, "llama.cpp exited with error"),
        (Runtime::LlamaHf, "llama-cli exited with error"),
        (Runtime::Ollama, "ollama exited with error"),
    ] {
        let error = RunError::RuntimeFailed { runtime, target: "t".to_string() };
        assert_eq!(error.message(), words);
    }
}

#[test]
fn run_failures_by_class() {
    assert_eq!(RunError::UnknownModel("X".to_string()).kind(), ErrorKind::Validation);
    assert_eq!(RunError::UnknownRuntime("x".to_string()).kind(), ErrorKind::Validation);
    assert_eq!(RunError::NoHomeDirectory.kind(), ErrorKind::Io);
    assert_eq!(
        RunError::ArtifactMissing { filename: String::new(), model: String::new() }.kind(),
        ErrorKind::Io
    );
    assert_eq!(
        RunError::RuntimeFailed { runtime: Runtime::Ollama, target: String::new() }.kind(),
        ErrorKind::Process
    );
}
