use yuy::commands::download::{
    advance, check_response, execute, is_success, refusal, DownloadError, DownloadFacts,
    DownloadStep, Plan, Response, Transfer,
};
use yuy::error::ErrorKind;
use yuy::platform::Platform;

const HOME: Option<&str> = Some("/home/u");

fn nothing_known() -> DownloadFacts {
    DownloadFacts { prepared: false, response: None, finished: false }
}

fn best_q4_0(auto_selected: bool) -> Plan {
    Plan {
        model: "Yuuki-best".to_string(),
        quantization: "q4_0".to_string(),
        auto_selected,
        directory: "/home/u/.yuuki/models/Yuuki-best".to_string(),
        filename: "yuuki-best-q4_0.gguf".to_string(),
        url: "https://huggingface.co/OpceanAI/Yuuki-best/resolve/main/yuuki-best-q4_0.gguf"
            .to_string(),
        destination: "/home/u/.yuuki/models/Yuuki-best/yuuki-best-q4_0.gguf".to_string(),
    }
}

#[test]
fn an_unknown_model_ends_the_download_before_anything_is_touched() {
    let step = execute("Yuuki-worst", Some("q4_0"), Platform::Linux, 8, HOME, &nothing_known());
    assert_eq!(
        step,
        DownloadStep::UnknownModel {
            model: "Yuuki-worst".to_string(),
            available: vec!["Yuuki-best", "Yuuki-3.7", "Yuuki-v0.1"],
        }
    );
}

#[test]
fn an_unknown_model_ends_the_download_whatever_is_known() {
    let facts = DownloadFacts {
        prepared: true,
        response: Some(Response { status: 200, content_length: Some(5) }),
        finished: true,
    };
    for home in [None, HOME] {
        let step = execute("yuuki-best", None, Platform::Termux, 8, home, &facts);
        assert!(matches!(step, DownloadStep::UnknownModel { .. }));
    }
}

#[test]
fn without_a_home_the_download_fails() {
    let step = execute("Yuuki-best", None, Platform::Linux, 8, None, &nothing_known());
    assert_eq!(step, DownloadStep::Fail(DownloadError::NoHomeDirectory));
}

#[test]
fn the_directory_is_made_first() {
    let step = execute("Yuuki-best", Some("q4_0"), Platform::Linux, 8, HOME, &nothing_known());
    assert_eq!(step, DownloadStep::Prepare(best_q4_0(false)));
}

#[test]
fn the_quantization_is_advised_where_none_is_given() {
    let step = execute("Yuuki-best", None, Platform::Termux, 8, HOME, &nothing_known());
    assert_eq!(step, DownloadStep::Prepare(best_q4_0(true)));
    let step = execute("Yuuki-3.7", None, Platform::Linux, 8, HOME, &nothing_known());
    match step {
        DownloadStep::Prepare(plan) => {
            assert!(plan.auto_selected);
            assert_eq!(plan.quantization, "q5_k_m");
            assert_eq!(plan.filename, "yuuki-3.7-q5_k_m.gguf");
            assert_eq!(
                plan.url,
                "https://huggingface.co/OpceanAI/Yuuki-3.7/resolve/main/yuuki-3.7-q5_k_m.gguf"
            );
        }
        other => panic!("unexpected step {:?}", other),
    }
}

#[test]
fn a_tag_that_is_not_a_usual_one_is_taken_as_given() {
    let step = execute("Yuuki-best", Some("q2_k"), Platform::Linux, 8, HOME, &nothing_known());
    match step {
        DownloadStep::Prepare(plan) => assert_eq!(plan.filename, "yuuki-best-q2_k.gguf"),
        other => panic!("unexpected step {:?}", other),
    }
}

#[test]
fn the_hub_is_asked_once_the_directory_is_made() {
    let facts = DownloadFacts { prepared: true, response: None, finished: false };
    let step = execute("Yuuki-best", Some("q4_0"), Platform::Linux, 8, HOME, &facts);
    assert_eq!(step, DownloadStep::Fetch(best_q4_0(false)));
}

#[test]
fn a_404_fails_the_download_and_no_file_is_written() {
    let facts = DownloadFacts {
        prepared: true,
        response: Some(Response { status: 404, content_length: Some(1024) }),
        finished: false,
    };
    let step = execute("Yuuki-best", Some("q4_0"), Platform::Linux, 8, HOME, &facts);
    assert_eq!(step, DownloadStep::Fail(DownloadError::Status(404)));
    assert_eq!(DownloadError::Status(404).kind(), ErrorKind::Remote);
}

#[test]
fn a_success_without_a_length_fails_the_download() {
    let facts = DownloadFacts {
        prepared: true,
        response: Some(Response { status: 200, content_length: None }),
        finished: false,
    };
    let step = execute("Yuuki-best", Some("q4_0"), Platform::Linux, 8, HOME, &facts);
    assert_eq!(step, DownloadStep::Fail(DownloadError::SizeUnknown));
}

#[test]
fn a_success_with_a_length_is_received() {
    let facts = DownloadFacts {
        prepared: true,
        response: Some(Response { status: 200, content_length: Some(1024) }),
        finished: false,
    };
    let step = execute("Yuuki-best", Some("q4_0"), Platform::Linux, 8, HOME, &facts);
    assert_eq!(step, DownloadStep::Receive { plan: best_q4_0(false), total: 1024 });
}

#[test]
fn a_download_of_1024_bytes_from_start_to_end() {
    let mut facts = nothing_known();
    let mut transfer = None;
    let mut steps = 0;
    let done = loop {
        steps += 1;
        assert!(steps < 10);
        match execute("Yuuki-best", Some("q4_0"), Platform::Linux, 8, HOME, &facts) {
            DownloadStep::Prepare(plan) => {
                assert_eq!(plan.directory, "/home/u/.yuuki/models/Yuuki-best");
                facts.prepared = true;
            }
            DownloadStep::Fetch(plan) => {
                assert_eq!(
                    plan.url,
                    "https://huggingface.co/OpceanAI/Yuuki-best/resolve/main/yuuki-best-q4_0.gguf"
                );
                facts.response = Some(Response { status: 200, content_length: Some(1024) });
            }
            DownloadStep::Receive { plan, total } => {
                assert_eq!(
                    plan.destination,
                    "/home/u/.yuuki/models/Yuuki-best/yuuki-best-q4_0.gguf"
                );
                let mut counting = Transfer::new(total);
                assert_eq!(counting.record(1000), 1000);
                assert_eq!(counting.record(24), 1024);
                transfer = Some(counting);
                facts.finished = true;
            }
            other => break other,
        }
    };
    assert_eq!(
        done,
        DownloadStep::Done {
            destination: "/home/u/.yuuki/models/Yuuki-best/yuuki-best-q4_0.gguf".to_string(),
            size: 1024,
        }
    );
    assert_eq!(transfer, Some(Transfer { total: 1024, received: 1024 }));
}

#[test]
fn success_is_the_class_from_200_to_299() {
    assert!(!is_success(0));
    assert!(!is_success(199));
    assert!(is_success(200));
    assert!(is_success(204));
    assert!(is_success(299));
    assert!(!is_success(300));
    assert!(!is_success(404));
    assert!(!is_success(500));
    assert!(!is_success(u16::MAX));
}

#[test]
fn the_status_is_judged_before_the_length() {
    assert_eq!(
        check_response(Response { status: 404, content_length: None }),
        Err(DownloadError::Status(404))
    );
    assert_eq!(
        check_response(Response { status: 500, content_length: Some(3) }),
        Err(DownloadError::Status(500))
    );
    assert_eq!(
        check_response(Response { status: 301, content_length: Some(3) }),
        Err(DownloadError::Status(301))
    );
    assert_eq!(
        check_response(Response { status: 200, content_length: None }),
        Err(DownloadError::SizeUnknown)
    );
    assert_eq!(check_response(Response { status: 200, content_length: Some(0) }), Ok(0));
    assert_eq!(check_response(Response { status: 206, content_length: Some(7) }), Ok(7));
}

#[test]
fn a_refused_download_names_the_status() {
    assert_eq!(
        DownloadError::Status(404).message(),
        "Failed to download: HTTP 404 Not Found - Model file might not exist yet. Try checking HuggingFace."
    );
    assert_eq!(
        DownloadError::Status(503).message(),
        "Failed to download: HTTP 503 Service Unavailable - Model file might not exist yet. Try checking HuggingFace."
    );
}

#[test]
fn a_status_without_a_phrase_is_named_as_unknown() {
    assert_eq!(
        DownloadError::Status(799).message(),
        "Failed to download: HTTP 799 <unknown status code> - Model file might not exist yet. Try checking HuggingFace."
    );
}

#[test]
fn a_number_that_is_no_status_is_named_barely() {
    assert_eq!(
        DownloadError::Status(42).message(),
        "Failed to download: HTTP 42 - Model file might not exist yet. Try checking HuggingFace."
    );
    assert_eq!(
        DownloadError::Status(1000).message(),
        "Failed to download: HTTP 1000 - Model file might not exist yet. Try checking HuggingFace."
    );
}

#[test]
fn the_other_failures_in_words() {
    assert_eq!(DownloadError::SizeUnknown.message(), "Failed to get content length");
    assert_eq!(DownloadError::SizeUnknown.kind(), ErrorKind::Remote);
    assert_eq!(DownloadError::NoHomeDirectory.message(), "Could not find home directory");
    assert_eq!(DownloadError::NoHomeDirectory.kind(), ErrorKind::Io);
}

#[test]
fn refusal_wraps_the_words_of_the_status() {
    assert_eq!(
        refusal("418 I'm a teapot"),
        "Failed to download: HTTP 418 I'm a teapot - Model file might not exist yet. Try checking HuggingFace."
    );
}

#[test]
fn a_transfer_starts_at_nothing() {
    let transfer = Transfer::new(1024);
    assert_eq!(transfer.total, 1024);
    assert_eq!(transfer.received, 0);
}

#[test]
fn a_transfer_counts_what_is_written() {
    let mut transfer = Transfer::new(10);
    assert_eq!(transfer.record(4), 4);
    assert_eq!(transfer.record(0), 4);
    assert_eq!(transfer.record(6), 10);
    assert_eq!(transfer.record(5), 15);
    assert_eq!(transfer, Transfer { total: 10, received: 15 });
}

#[test]
fn a_transfer_knows_when_it_has_no_room() {
    let mut transfer = Transfer::new(0);
    assert!(transfer.has_room(usize::MAX));
    transfer.received = u64::MAX - 3;
    assert!(transfer.has_room(3));
    assert!(!transfer.has_room(4));
}

#[test]
fn advance_takes_the_lowercase_name_as_it_is_given() {
    match advance("Yuuki-best", "STEM", Some("q4_0"), Platform::Linux, 8, HOME, &nothing_known()) {
        DownloadStep::Prepare(plan) => {
            assert_eq!(plan.model, "Yuuki-best");
            assert_eq!(plan.filename, "STEM-q4_0.gguf");
            assert_eq!(plan.directory, "/home/u/.yuuki/models/Yuuki-best");
            assert_eq!(plan.destination, "/home/u/.yuuki/models/Yuuki-best/STEM-q4_0.gguf");
            assert_eq!(
                plan.url,
                "https://huggingface.co/OpceanAI/Yuuki-best/resolve/main/STEM-q4_0.gguf"
            );
        }
        other => panic!("unexpected step {:?}", other),
    }
}
