use yuy::commands::info::{
    execute, Contents, InfoError, InfoFacts, InfoReport, InfoStep, LocalStatus,
};
use yuy::error::ErrorKind;
use yuy::store::{Artifact, FileEntry, FileSize, StoreError};

const HOME: Option<&str> = Some("/home/u");

fn nothing_known() -> InfoFacts {
    InfoFacts { store_ready: false, directory_exists: None, contents: None }
}

#[test]
fn an_unknown_model_fails_the_inquiry_at_once() {
    assert_eq!(
        execute("Yuuki", true, HOME, &nothing_known()),
        InfoStep::Fail(InfoError::UnknownModel("Yuuki".to_string()))
    );
    assert_eq!(
        execute("Yuuki", false, None, &nothing_known()),
        InfoStep::Fail(InfoError::UnknownModel("Yuuki".to_string()))
    );
}

#[test]
fn without_a_home_the_inquiry_fails() {
    assert_eq!(
        execute("Yuuki-best", false, None, &nothing_known()),
        InfoStep::Fail(InfoError::Store(StoreError::NoHomeDirectory))
    );
}

#[test]
fn an_inquiry_opens_the_store_then_looks_the_directory_up() {
    let mut facts = nothing_known();
    assert_eq!(
        execute("Yuuki-best", false, HOME, &facts),
        InfoStep::OpenStore {
            yuuki_dir: "/home/u/.yuuki".to_string(),
            models_dir: "/home/u/.yuuki/models".to_string(),
        }
    );
    facts.store_ready = true;
    assert_eq!(
        execute("Yuuki-best", false, HOME, &facts),
        InfoStep::CheckDirectory("/home/u/.yuuki/models/Yuuki-best".to_string())
    );
}

#[test]
fn a_model_that_is_not_downloaded_is_reported_with_the_command_to_get_it() {
    let facts = InfoFacts { store_ready: true, directory_exists: Some(false), contents: None };
    assert_eq!(
        execute("Yuuki-3.7", true, HOME, &facts),
        InfoStep::Done(InfoReport {
            model: "Yuuki-3.7".to_string(),
            page: "https://huggingface.co/OpceanAI/Yuuki-3.7".to_string(),
            local: LocalStatus::NotDownloaded { command: "yuy download Yuuki-3.7".to_string() },
            show_variants: true,
        })
    );
}

#[test]
fn a_downloaded_model_is_read_and_reported_with_its_artifacts() {
    let mut facts = InfoFacts { store_ready: true, directory_exists: Some(true), contents: None };
    assert_eq!(
        execute("Yuuki-best", false, HOME, &facts),
        InfoStep::ReadDirectory("/home/u/.yuuki/models/Yuuki-best".to_string())
    );
    facts.contents = Some(Contents::Files(vec![
        FileEntry { name: "yuuki-best-q4_0.gguf".to_string(), size: FileSize::Known(400) },
        FileEntry { name: "notes.txt".to_string(), size: FileSize::Unreadable("x".to_string()) },
        FileEntry { name: "yuuki-best-f32.gguf".to_string(), size: FileSize::Known(9000) },
    ]));
    assert_eq!(
        execute("Yuuki-best", false, HOME, &facts),
        InfoStep::Done(InfoReport {
            model: "Yuuki-best".to_string(),
            page: "https://huggingface.co/OpceanAI/Yuuki-best".to_string(),
            local: LocalStatus::Downloaded {
                location: "/home/u/.yuuki/models/Yuuki-best".to_string(),
                variants: vec![
                    Artifact { file_name: "yuuki-best-q4_0.gguf".to_string(), size: 400 },
                    Artifact { file_name: "yuuki-best-f32.gguf".to_string(), size: 9000 },
                ],
            },
            show_variants: false,
        })
    );
}

#[test]
fn a_directory_that_cannot_be_read_shows_no_artifacts() {
    let facts = InfoFacts {
        store_ready: true,
        directory_exists: Some(true),
        contents: Some(Contents::Unreadable),
    };
    match execute("Yuuki-best", false, HOME, &facts) {
        InfoStep::Done(report) => assert_eq!(
            report.local,
            LocalStatus::Downloaded {
                location: "/home/u/.yuuki/models/Yuuki-best".to_string(),
                variants: Vec::new(),
            }
        ),
        other => panic!("unexpected step {:?}", other),
    }
}

#[test]
fn an_artifact_whose_size_cannot_be_read_fails_the_inquiry() {
    let facts = InfoFacts {
        store_ready: true,
        directory_exists: Some(true),
        contents: Some(Contents::Files(vec![FileEntry {
            name: "yuuki-best-q4_0.gguf".to_string(),
            size: FileSize::Unreadable("permission denied".to_string()),
        }])),
    };
    let step = execute("Yuuki-best", false, HOME, &facts);
    let expected = InfoError::Store(StoreError::Unreadable {
        name: "yuuki-best-q4_0.gguf".to_string(),
        reason: "permission denied".to_string(),
    });
    assert_eq!(expected.message(), "permission denied");
    assert_eq!(expected.kind(), ErrorKind::Io);
    assert_eq!(step, InfoStep::Fail(expected));
}

#[test]
fn the_unknown_model_in_words() {
    let error = InfoError::UnknownModel("X".to_string());
    assert_eq!(
        error.message(),
        "Model 'X' not found. Use 'yuy list models --remote' to see available models."
    );
    assert_eq!(error.kind(), ErrorKind::Validation);
    assert_eq!(
        InfoError::Store(StoreError::NoHomeDirectory).message(),
        "Could not find home directory"
    );
}
