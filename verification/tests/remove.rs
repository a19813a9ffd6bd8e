use yuy::commands::remove::{execute, RemoveFacts, RemoveOutcome, RemoveStep};
use yuy::store::{FileEntry, FileSize, StoreError};
use yuy::text::confirmed;

const HOME: Option<&str> = Some("/home/u");

fn nothing_known() -> RemoveFacts {
    RemoveFacts {
        store_ready: false,
        directory_exists: None,
        files: None,
        agreed: None,
        deleted: false,
    }
}

fn three_files() -> Vec<FileEntry> {
    vec![
        FileEntry { name: "a.gguf".to_string(), size: FileSize::Known(10) },
        FileEntry { name: "b.gguf".to_string(), size: FileSize::Known(20) },
        FileEntry { name: "c.txt".to_string(), size: FileSize::Known(30) },
    ]
}

#[test]
fn without_a_home_the_removal_fails() {
    assert_eq!(
        execute("Yuuki-best", None, &nothing_known()),
        RemoveStep::Fail(StoreError::NoHomeDirectory)
    );
}

#[test]
fn a_removal_opens_the_store_then_looks_the_directory_up() {
    let mut facts = nothing_known();
    assert_eq!(
        execute("Yuuki-best", HOME, &facts),
        RemoveStep::OpenStore {
            yuuki_dir: "/home/u/.yuuki".to_string(),
            models_dir: "/home/u/.yuuki/models".to_string(),
        }
    );
    facts.store_ready = true;
    assert_eq!(
        execute("Yuuki-best", HOME, &facts),
        RemoveStep::CheckDirectory("/home/u/.yuuki/models/Yuuki-best".to_string())
    );
}

#[test]
fn removing_what_is_not_there_succeeds_with_nothing_done() {
    let mut facts = nothing_known();
    facts.store_ready = true;
    facts.directory_exists = Some(false);
    assert_eq!(execute("Yuuki-best", HOME, &facts), RemoveStep::Done(RemoveOutcome::NotDownloaded));
    facts.agreed = Some(true);
    facts.files = Some(three_files());
    assert_eq!(execute("Yuuki-best", HOME, &facts), RemoveStep::Done(RemoveOutcome::NotDownloaded));
}

#[test]
fn any_name_can_be_removed() {
    let mut facts = nothing_known();
    facts.store_ready = true;
    assert_eq!(
        execute("not-a-model", HOME, &facts),
        RemoveStep::CheckDirectory("/home/u/.yuuki/models/not-a-model".to_string())
    );
}

#[test]
fn the_directory_is_measured_before_the_user_is_asked() {
    let mut facts = nothing_known();
    facts.store_ready = true;
    facts.directory_exists = Some(true);
    assert_eq!(
        execute("Yuuki-best", HOME, &facts),
        RemoveStep::Measure("/home/u/.yuuki/models/Yuuki-best".to_string())
    );
    facts.files = Some(three_files());
    assert_eq!(execute("Yuuki-best", HOME, &facts), RemoveStep::Confirm { bytes: 60 });
}

#[test]
fn anything_but_a_yes_cancels() {
    let mut facts = nothing_known();
    facts.store_ready = true;
    facts.directory_exists = Some(true);
    facts.files = Some(three_files());
    for answer in ["", "\n", "n\n", "no", "yes\n", "yy"] {
        facts.agreed = Some(confirmed(answer));
        assert_eq!(execute("Yuuki-best", HOME, &facts), RemoveStep::Done(RemoveOutcome::Cancelled));
    }
}

#[test]
fn a_yes_deletes_the_directory() {
    let mut facts = nothing_known();
    facts.store_ready = true;
    facts.directory_exists = Some(true);
    facts.files = Some(three_files());
    for answer in ["y", "Y", "y\n", "  Y \r\n"] {
        facts.agreed = Some(confirmed(answer));
        assert_eq!(
            execute("Yuuki-best", HOME, &facts),
            RemoveStep::Delete("/home/u/.yuuki/models/Yuuki-best".to_string())
        );
    }
}

#[test]
fn after_the_deletion_the_freed_bytes_are_reported() {
    let mut facts = nothing_known();
    facts.store_ready = true;
    facts.directory_exists = Some(true);
    facts.files = Some(three_files());
    facts.agreed = Some(true);
    facts.deleted = true;
    assert_eq!(
        execute("Yuuki-best", HOME, &facts),
        RemoveStep::Done(RemoveOutcome::Removed { freed: 60 })
    );
}
