use yuy::commands::setup::{execute, RuntimeState, SetupFacts, SetupReport, SetupStep};
use yuy::config::ConfigError;
use yuy::dispatch::Wanted;
use yuy::platform::Platform;
use yuy::text::confirmed;

const HOME: Option<&str> = Some("/home/u");

fn nothing_known() -> SetupFacts {
    SetupFacts {
        store_ready: false,
        llama: Vec::new(),
        ollama: None,
        agreed: None,
        install_done: false,
    }
}

fn report(llama: bool, ollama: bool, runtime: RuntimeState) -> SetupStep {
    SetupStep::Done(SetupReport {
        yuuki_dir: "/home/u/.yuuki".to_string(),
        models_dir: "/home/u/.yuuki/models".to_string(),
        platform: Platform::MacOS,
        llama_installed: llama,
        ollama_installed: ollama,
        runtime,
    })
}

#[test]
fn without_a_home_the_setup_fails() {
    assert_eq!(
        execute("macos", None, None, &nothing_known()),
        SetupStep::Fail(ConfigError::NoHomeDirectory)
    );
}

#[test]
fn a_host_with_a_runtime_is_ready() {
    let mut facts = nothing_known();
    assert_eq!(
        execute("macos", None, HOME, &facts),
        SetupStep::OpenStore {
            yuuki_dir: "/home/u/.yuuki".to_string(),
            models_dir: "/home/u/.yuuki/models".to_string(),
        }
    );
    facts.store_ready = true;
    assert_eq!(execute("macos", None, HOME, &facts), SetupStep::Probe { name: "llama-cli", wanted: Wanted::Llama });
    facts.llama.push(true);
    assert_eq!(execute("macos", None, HOME, &facts), SetupStep::Probe { name: "ollama", wanted: Wanted::Ollama });
    facts.ollama = Some(false);
    assert_eq!(execute("macos", None, HOME, &facts), report(true, false, RuntimeState::Ready));
}

#[test]
fn ollama_alone_is_enough() {
    let mut facts = nothing_known();
    facts.store_ready = true;
    facts.llama = vec![false, false, false];
    facts.ollama = Some(true);
    assert_eq!(execute("macos", None, HOME, &facts), report(false, true, RuntimeState::Ready));
}

#[test]
fn a_host_without_a_runtime_is_offered_an_installation() {
    let mut facts = nothing_known();
    facts.store_ready = true;
    facts.llama = vec![false, false, false];
    facts.ollama = Some(false);
    assert_eq!(execute("macos", None, HOME, &facts), SetupStep::OfferInstall);
    facts.agreed = Some(confirmed("n\n"));
    assert_eq!(execute("macos", None, HOME, &facts), report(false, false, RuntimeState::Skipped));
    facts.agreed = Some(confirmed("\n"));
    assert_eq!(execute("macos", None, HOME, &facts), report(false, false, RuntimeState::Skipped));
    facts.agreed = Some(confirmed("Y\n"));
    assert_eq!(execute("macos", None, HOME, &facts), SetupStep::Install);
    facts.install_done = true;
    assert_eq!(
        execute("macos", None, HOME, &facts),
        report(false, false, RuntimeState::InstallAttempted)
    );
}
