use rhema::assets::{Asset, Directories, Location, Root};
use rhema::loading::{
    load_qwen_model_into_pipeline, run, LoadAction, LoadError, LoadReport, Outcome, StartupAction, StartupNote,
};

fn at(root: Root, asset: Asset) -> Location {
    Location { root, asset }
}

const ALL: Directories = Directories { local_data: true, resources: true };

fn downloaded() -> Vec<Location> {
    vec![at(Root::LocalData, Asset::QuantizedModel), at(Root::LocalData, Asset::QuantizedTokenizer)]
}

fn with_index(mut disk: Vec<Location>) -> Vec<Location> {
    disk.push(at(Root::Resources, Asset::Embeddings));
    disk.push(at(Root::Project, Asset::VerseIds));
    disk
}

fn report(embedder: Outcome, index: Outcome) -> LoadReport {
    LoadReport { embedder, index }
}

fn message(action: LoadAction) -> String {
    match action {
        LoadAction::Fail(e) => e.message("/a/e.bin", "/a/i.bin"),
        other => panic!("{other:?}"),
    }
}

#[test]
fn loading_needs_the_model_files() {
    let action = load_qwen_model_into_pipeline(&ALL, &vec![], &LoadReport::none());
    assert_eq!(message(action), "Qwen model or tokenizer files do not exist");
}

#[test]
fn loading_goes_step_by_step() {
    let disk = with_index(downloaded());
    match load_qwen_model_into_pipeline(&ALL, &disk, &LoadReport::none()) {
        LoadAction::LoadEmbedder { model, tokenizer } => assert_eq!(vec![model, tokenizer], downloaded()),
        other => panic!("{other:?}"),
    }
    match load_qwen_model_into_pipeline(&ALL, &disk, &report(Outcome::Succeeded, Outcome::NotTried)) {
        LoadAction::LoadIndex { embeddings, ids } => {
            assert_eq!(embeddings, at(Root::Resources, Asset::Embeddings));
            assert_eq!(ids, at(Root::Project, Asset::VerseIds));
        }
        other => panic!("{other:?}"),
    }
    let action = load_qwen_model_into_pipeline(&ALL, &disk, &report(Outcome::Succeeded, Outcome::Succeeded));
    assert!(matches!(action, LoadAction::Install));
}

#[test]
fn loading_reports_a_broken_model() {
    let disk = with_index(downloaded());
    let failed = report(Outcome::Failed("bad file".to_string()), Outcome::NotTried);
    let action = load_qwen_model_into_pipeline(&ALL, &disk, &failed);
    assert_eq!(message(action), "Failed to load ONNX embedder: bad file");
}

#[test]
fn loading_reports_a_broken_index() {
    let disk = with_index(downloaded());
    let failed = report(Outcome::Succeeded, Outcome::Failed("short".to_string()));
    let action = load_qwen_model_into_pipeline(&ALL, &disk, &failed);
    assert_eq!(message(action), "Failed to load HNSW vector index: short");
}

#[test]
fn loading_reports_missing_embeddings_after_the_model_was_loaded() {
    let loaded = report(Outcome::Succeeded, Outcome::NotTried);
    match load_qwen_model_into_pipeline(&ALL, &downloaded(), &loaded) {
        LoadAction::Fail(e) => {
            assert_eq!(
                e.message("/a/e.bin", "/a/i.bin"),
                "Pre-computed verse embeddings not found (looked in /a/e.bin and /a/i.bin)"
            );
            match e {
                LoadError::EmbeddingsMissing { embeddings, ids } => {
                    assert_eq!(embeddings, at(Root::Project, Asset::Embeddings));
                    assert_eq!(ids, at(Root::Project, Asset::VerseIds));
                }
                other => panic!("{other:?}"),
            }
        }
        other => panic!("{other:?}"),
    }
    // before that, the model is loaded all the same
    let action = load_qwen_model_into_pipeline(&ALL, &downloaded(), &LoadReport::none());
    assert!(matches!(action, LoadAction::LoadEmbedder { .. }));
    let mut one = downloaded();
    one.push(at(Root::Project, Asset::Embeddings));
    let action = load_qwen_model_into_pipeline(&ALL, &one, &report(Outcome::Succeeded, Outcome::NotTried));
    assert!(matches!(action, LoadAction::Fail(LoadError::EmbeddingsMissing { .. })));
}

fn startup_disk() -> Vec<Location> {
    with_index(vec![
        at(Root::Resources, Asset::Database),
        at(Root::Project, Asset::FullModel),
        at(Root::Resources, Asset::FullTokenizer),
    ])
}

#[test]
fn startup_opens_the_database_first() {
    match run(&ALL, &startup_disk(), false, &LoadReport::none()) {
        StartupAction::OpenDatabase(l) => assert_eq!(l, at(Root::Resources, Asset::Database)),
        other => panic!("{other:?}"),
    }
    let action = run(&ALL, &vec![], false, &LoadReport::none());
    assert!(matches!(action, StartupAction::Finish(StartupNote::ModelMissing)));
}

#[test]
fn startup_loads_the_model_and_the_index() {
    match run(&ALL, &startup_disk(), true, &LoadReport::none()) {
        StartupAction::LoadEmbedder { model, tokenizer } => {
            assert_eq!(model, at(Root::Project, Asset::FullModel));
            assert_eq!(tokenizer, at(Root::Resources, Asset::FullTokenizer));
        }
        other => panic!("{other:?}"),
    }
    match run(&ALL, &startup_disk(), true, &report(Outcome::Succeeded, Outcome::NotTried)) {
        StartupAction::LoadIndex { embeddings, ids } => {
            assert_eq!(embeddings, at(Root::Resources, Asset::Embeddings));
            assert_eq!(ids, at(Root::Project, Asset::VerseIds));
        }
        other => panic!("{other:?}"),
    }
    let action = run(&ALL, &startup_disk(), true, &report(Outcome::Succeeded, Outcome::Succeeded));
    assert!(matches!(action, StartupAction::Install));
}

#[test]
fn startup_goes_on_without_semantic_search() {
    match run(&ALL, &startup_disk(), true, &report(Outcome::Failed("x".to_string()), Outcome::NotTried)) {
        StartupAction::Finish(StartupNote::EmbedderFailed(e)) => assert_eq!(e, "x"),
        other => panic!("{other:?}"),
    }
    match run(&ALL, &startup_disk(), true, &report(Outcome::Succeeded, Outcome::Failed("y".to_string()))) {
        StartupAction::Finish(StartupNote::IndexFailed(e)) => assert_eq!(e, "y"),
        other => panic!("{other:?}"),
    }
    let disk = vec![at(Root::Project, Asset::QuantizedModel), at(Root::Project, Asset::FullTokenizer)];
    let action = run(&ALL, &disk, false, &report(Outcome::Succeeded, Outcome::NotTried));
    assert!(matches!(action, StartupAction::Finish(StartupNote::EmbeddingsMissing)));
    // the tokenizer beside the quantized model is not considered at startup
    let disk = vec![at(Root::Project, Asset::QuantizedModel), at(Root::LocalData, Asset::QuantizedTokenizer)];
    let action = run(&ALL, &disk, false, &LoadReport::none());
    assert!(matches!(action, StartupAction::Finish(StartupNote::ModelMissing)));
}
