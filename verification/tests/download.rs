use rhema::assets::{check_qwen_model, relative_path, Asset, Directories, Location, Root};
use rhema::download::{
    download_directory, download_qwen_model, download_url, status_failure, Download, DownloadAction,
    DownloadEvent, Part,
};

const ALL: Directories = Directories { local_data: true, resources: true };

type Action = DownloadAction<String>;
type Event = DownloadEvent<String>;

fn at(asset: Asset) -> Location {
    Location { root: Root::LocalData, asset }
}

fn step(d: &mut Download, e: Event) -> Action {
    assert!(d.accepts(&e), "{e:?}");
    download_qwen_model(d, e)
}

fn end(action: Action) -> Result<(), String> {
    match action {
        Action::Finish(r) => r,
        other => panic!("{other:?}"),
    }
}

fn failed() -> Event {
    Event::Failed("why".to_string())
}

fn existing() -> Vec<Location> {
    vec![at(Asset::QuantizedModel), at(Asset::QuantizedTokenizer)]
}

/// A download whose two files have these sizes, about to request the model at time 0.
fn sized(model: u64, tokenizer: u64) -> Download {
    let mut d = Download::begin(&ALL, &vec![]);
    step(&mut d, Event::Succeeded);
    step(&mut d, Event::Succeeded);
    step(&mut d, Event::Endpoint(Some("http://host".to_string())));
    step(&mut d, Event::Length { reported: Some(model), now: 0 });
    step(&mut d, Event::Length { reported: Some(tokenizer), now: 0 });
    d
}

/// A download that is receiving the model.
fn receiving(model: u64, tokenizer: u64) -> Download {
    let mut d = sized(model, tokenizer);
    step(&mut d, Event::Status(200));
    step(&mut d, Event::Succeeded);
    assert!(matches!(d.action(), Action::NextChunk));
    d
}

/// A download whose files were both received and flushed.
fn received() -> Download {
    let mut d = receiving(1, 1);
    for _ in 0..2 {
        step(&mut d, Event::StreamEnded);
        if let Action::Request(_) = step(&mut d, Event::Succeeded) {
            step(&mut d, Event::Status(200));
            step(&mut d, Event::Succeeded);
        }
    }
    d
}

#[test]
fn urls_lie_below_the_endpoint() {
    assert_eq!(
        download_url("https://huggingface.co", Part::Model),
        "https://huggingface.co/onnx-community/Qwen3-Embedding-0.6B-ONNX/resolve/main/onnx/model_quantized.onnx"
    );
    assert_eq!(
        download_url("http://mirror", Part::Tokenizer),
        "http://mirror/onnx-community/Qwen3-Embedding-0.6B-ONNX/resolve/main/tokenizer.json"
    );
}

#[test]
fn files_lie_in_the_download_directory() {
    for asset in [Asset::QuantizedModel, Asset::QuantizedTokenizer, Asset::PartialModel, Asset::PartialTokenizer] {
        let path = relative_path(&at(asset));
        assert!(path.starts_with(&format!("{}/", download_directory())));
    }
}

#[test]
fn existing_files_are_only_loaded() {
    let mut d = Download::begin(&ALL, &existing());
    assert!(matches!(d.action(), Action::LockPipeline));
    assert_eq!(end(step(&mut d, Event::Locked { has_semantic: true })), Ok(()));

    let mut d = Download::begin(&ALL, &existing());
    assert!(matches!(step(&mut d, Event::Locked { has_semantic: false }), Action::LoadModel));
    assert_eq!(end(step(&mut d, Event::Succeeded)), Ok(()));

    let mut d = Download::begin(&ALL, &existing());
    step(&mut d, Event::Locked { has_semantic: false });
    assert_eq!(end(step(&mut d, failed())), Err("why".to_string()));

    let mut d = Download::begin(&ALL, &existing());
    assert_eq!(end(step(&mut d, failed())), Err("why".to_string()));
}

#[test]
fn a_download_goes_through_all_its_steps() {
    let mut d = Download::begin(&ALL, &vec![]);
    assert!(matches!(d.action(), Action::FindLocalDirectory));
    assert!(matches!(step(&mut d, Event::Succeeded), Action::CreateDirectory));
    assert!(matches!(step(&mut d, Event::Succeeded), Action::ReadEndpoint));
    let model_url = download_url("https://huggingface.co", Part::Model);
    let tokenizer_url = download_url("https://huggingface.co", Part::Tokenizer);
    match step(&mut d, Event::Endpoint(None)) {
        Action::AskLength(url) => assert_eq!(url, model_url),
        other => panic!("{other:?}"),
    }
    match step(&mut d, Event::Length { reported: Some(5), now: 1 }) {
        Action::AskLength(url) => assert_eq!(url, tokenizer_url),
        other => panic!("{other:?}"),
    }
    match step(&mut d, Event::Length { reported: Some(3), now: 2 }) {
        Action::Request(url) => assert_eq!(url, model_url),
        other => panic!("{other:?}"),
    }
    match step(&mut d, Event::Status(200)) {
        Action::CreateFile(l) => assert_eq!(l, at(Asset::PartialModel)),
        other => panic!("{other:?}"),
    }
    assert!(matches!(step(&mut d, Event::Succeeded), Action::NextChunk));
    assert!(matches!(step(&mut d, Event::Chunk { length: 5 }), Action::WriteChunk));
    assert!(matches!(step(&mut d, Event::Written { now: 3 }), Action::NextChunk));
    assert!(matches!(step(&mut d, Event::StreamEnded), Action::Flush));
    match step(&mut d, Event::Succeeded) {
        Action::Request(url) => assert_eq!(url, tokenizer_url),
        other => panic!("{other:?}"),
    }
    match step(&mut d, Event::Status(206)) {
        Action::CreateFile(l) => assert_eq!(l, at(Asset::PartialTokenizer)),
        other => panic!("{other:?}"),
    }
    assert!(matches!(step(&mut d, Event::Succeeded), Action::NextChunk));
    assert!(matches!(step(&mut d, Event::Chunk { length: 3 }), Action::WriteChunk));
    match step(&mut d, Event::Written { now: 4 }) {
        Action::Report { downloaded, total } => assert_eq!((downloaded, total), (8, 8)),
        other => panic!("{other:?}"),
    }
    assert!(matches!(step(&mut d, Event::Reported { now: 5 }), Action::NextChunk));
    assert!(matches!(step(&mut d, Event::StreamEnded), Action::Flush));
    match step(&mut d, Event::Succeeded) {
        Action::Rename { from, to } => {
            assert_eq!((from, to), (at(Asset::PartialModel), at(Asset::QuantizedModel)))
        }
        other => panic!("{other:?}"),
    }
    match step(&mut d, Event::Succeeded) {
        Action::Rename { from, to } => {
            assert_eq!((from, to), (at(Asset::PartialTokenizer), at(Asset::QuantizedTokenizer)))
        }
        other => panic!("{other:?}"),
    }
    assert!(matches!(step(&mut d, Event::Succeeded), Action::LockPipeline));
    assert!(matches!(step(&mut d, Event::Locked { has_semantic: true }), Action::LoadModel));
    assert!(matches!(step(&mut d, Event::Succeeded), Action::Announce));
    assert_eq!(end(step(&mut d, Event::Succeeded)), Ok(()));
    assert!(!d.accepts(&Event::Succeeded));
    assert!(!d.accepts(&failed()));
    assert!(check_qwen_model(&ALL, &existing()));
}

#[test]
fn unknown_sizes_have_defaults() {
    let mut d = Download::begin(&ALL, &vec![]);
    step(&mut d, Event::Succeeded);
    step(&mut d, Event::Succeeded);
    step(&mut d, Event::Endpoint(None));
    step(&mut d, Event::Length { reported: None, now: 0 });
    step(&mut d, Event::Length { reported: None, now: 0 });
    step(&mut d, Event::Status(200));
    step(&mut d, Event::Succeeded);
    step(&mut d, Event::Chunk { length: 10 });
    match step(&mut d, Event::Written { now: 200_000_000 }) {
        Action::Report { downloaded, total } => {
            assert_eq!((downloaded, total), (10, 597_990_265 + 11_423_705))
        }
        other => panic!("{other:?}"),
    }
}

#[test]
fn sizes_have_to_fit() {
    let mut d = Download::begin(&ALL, &vec![]);
    step(&mut d, Event::Succeeded);
    step(&mut d, Event::Succeeded);
    step(&mut d, Event::Endpoint(None));
    step(&mut d, Event::Length { reported: Some(u64::MAX), now: 0 });
    assert!(!d.accepts(&Event::Length { reported: Some(1), now: 0 }));
    assert!(d.accepts(&Event::Length { reported: Some(0), now: 0 }));
    assert!(!d.accepts(&Event::Length { reported: None, now: 0 }));
}

#[test]
fn counts_have_to_fit() {
    let mut d = receiving(5, 5);
    step(&mut d, Event::Chunk { length: u64::MAX });
    step(&mut d, Event::Written { now: 0 });
    step(&mut d, Event::Chunk { length: 1 });
    assert!(!d.accepts(&Event::Written { now: 0 }));
}

#[test]
fn progress_is_reported_now_and_then() {
    let mut d = receiving(1000, 0);
    let mut reports = Vec::new();
    // nine chunks, 50 ms apart
    for i in 1..=9u64 {
        step(&mut d, Event::Chunk { length: 10 });
        let now = u128::from(i) * 50_000_000;
        if let Action::Report { downloaded, total } = step(&mut d, Event::Written { now }) {
            assert_eq!(total, 1000);
            reports.push((i, downloaded));
            step(&mut d, Event::Reported { now });
        }
    }
    // exactly 150 ms is not enough
    assert_eq!(reports, vec![(4, 40), (8, 80)]);
}

#[test]
fn the_report_interval_is_exclusive() {
    let mut d = receiving(1000, 0);
    step(&mut d, Event::Chunk { length: 1 });
    assert!(matches!(step(&mut d, Event::Written { now: 150_000_000 }), Action::NextChunk));
    step(&mut d, Event::Chunk { length: 1 });
    assert!(matches!(step(&mut d, Event::Written { now: 150_000_001 }), Action::Report { downloaded: 2, .. }));
    // the next interval counts from when the report was made
    step(&mut d, Event::Reported { now: 500_000_000 });
    step(&mut d, Event::Chunk { length: 1 });
    assert!(matches!(step(&mut d, Event::Written { now: 600_000_000 }), Action::NextChunk));
    step(&mut d, Event::Chunk { length: 1 });
    assert!(matches!(step(&mut d, Event::Written { now: 400_000_000 }), Action::NextChunk));
}

#[test]
fn completion_is_always_reported() {
    let mut d = receiving(7, 0);
    step(&mut d, Event::Chunk { length: 3 });
    assert!(matches!(step(&mut d, Event::Written { now: 1 }), Action::NextChunk));
    step(&mut d, Event::Chunk { length: 4 });
    assert!(matches!(
        step(&mut d, Event::Written { now: 2 }),
        Action::Report { downloaded: 7, total: 7 }
    ));
}

#[test]
fn responses_that_are_no_success_end_the_download() {
    let url = download_url("http://host", Part::Model);
    for (code, words) in [
        (404, "404 Not Found"),
        (503, "503 Service Unavailable"),
        (302, "302 Found"),
        (199, "199 <unknown status code>"),
        (300, "300 Multiple Choices"),
        (999, "999 <unknown status code>"),
    ] {
        let mut d = sized(1, 1);
        assert_eq!(
            end(step(&mut d, Event::Status(code))),
            Err(format!("Download from {url} failed with status: {words}"))
        );
    }
    for code in [200, 204, 299] {
        let mut d = sized(1, 1);
        assert!(matches!(step(&mut d, Event::Status(code)), Action::CreateFile(_)));
    }
    let d = sized(1, 1);
    assert!(!d.accepts(&Event::Status(99)));
    assert!(!d.accepts(&Event::Status(1000)));
}

#[test]
fn status_failures_name_the_address() {
    assert_eq!(status_failure("u", "418 I'm a teapot"), "Download from u failed with status: 418 I'm a teapot");
}

#[test]
fn every_failure_is_reported_in_its_own_words() {
    let fail = |mut d: Download| end(step(&mut d, failed())).unwrap_err();
    let mut d = Download::begin(&ALL, &vec![]);
    assert_eq!(fail(Download::begin(&ALL, &vec![])), "Failed to get local data dir: why");
    step(&mut d, Event::Succeeded);
    assert_eq!(fail(d), "Failed to create models directory: why");
    let url = download_url("http://host", Part::Model);
    assert_eq!(fail(sized(1, 1)), format!("Failed to start download from {url}: why"));
    let mut d = sized(1, 1);
    step(&mut d, Event::Status(200));
    assert_eq!(fail(d), "Failed to create temp file: why");
    assert_eq!(fail(receiving(1, 1)), "Error during download: why");
    let mut d = receiving(1, 1);
    step(&mut d, Event::Chunk { length: 1 });
    assert_eq!(fail(d), "Failed to write to file: why");
    let mut d = receiving(1, 1);
    step(&mut d, Event::StreamEnded);
    assert_eq!(fail(d), "Failed to flush file: why");
    let mut d = receiving(1, 1);
    step(&mut d, Event::StreamEnded);
    step(&mut d, Event::Succeeded);
    let url = download_url("http://host", Part::Tokenizer);
    assert_eq!(fail(d), format!("Failed to start download from {url}: why"));
    assert_eq!(fail(received()), "Failed to rename temp model file: why");
    let mut d = received();
    step(&mut d, Event::Succeeded);
    assert_eq!(fail(d), "Failed to rename temp tokenizer file: why");
    let mut d = received();
    step(&mut d, Event::Succeeded);
    step(&mut d, Event::Succeeded);
    assert_eq!(fail(d), "why");
    let mut d = received();
    step(&mut d, Event::Succeeded);
    step(&mut d, Event::Succeeded);
    step(&mut d, Event::Locked { has_semantic: false });
    assert_eq!(fail(d), "Failed to initialize model after download: why");
}

#[test]
fn only_answers_to_the_question_are_accepted() {
    let d = Download::begin(&ALL, &vec![]);
    assert!(!d.accepts(&Event::StreamEnded));
    assert!(!d.accepts(&Event::Status(200)));
    assert!(!d.accepts(&Event::Written { now: 0 }));
    let d = receiving(1, 1);
    assert!(!d.accepts(&Event::Succeeded));
    assert!(d.accepts(&Event::Chunk { length: 0 }));
    assert!(d.accepts(&Event::StreamEnded));
}

#[test]
fn moves_wait_for_both_files() {
    // The model alone is complete: the tokenizer is requested, and its failure ends it.
    let mut d = receiving(1, 1);
    step(&mut d, Event::StreamEnded);
    assert!(matches!(step(&mut d, Event::Succeeded), Action::Request(_)));
    assert!(end(step(&mut d, failed())).is_err());
    // Both are complete: a move is asked for, even if it then fails.
    let mut d = received();
    assert!(matches!(d.action(), Action::Rename { .. }));
    assert!(end(step(&mut d, failed())).is_err());
}
