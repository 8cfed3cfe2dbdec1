use std::path::Path;

use rhema::assets::{
    check_qwen_model, is_there, relative_path, resolve_bundled, resolve_database, resolve_qwen_paths,
    resolve_startup_model, searched_locations, Asset, Directories, Location, Root,
};

fn at(root: Root, asset: Asset) -> Location {
    Location { root, asset }
}

const ALL: Directories = Directories { local_data: true, resources: true };

const NONE: Directories = Directories { local_data: false, resources: false };

#[test]
fn paths_below_the_roots() {
    let path = |root, asset| relative_path(&at(root, asset));
    assert_eq!(path(Root::Project, Asset::Database), "data/rhema.db");
    assert_eq!(path(Root::Resources, Asset::Database), "_up_/data/rhema.db");
    assert_eq!(
        path(Root::Project, Asset::QuantizedModel),
        "models/qwen3-embedding-0.6b-int8/model_quantized.onnx"
    );
    assert_eq!(
        path(Root::Resources, Asset::QuantizedModel),
        "_up_/models/qwen3-embedding-0.6b-int8/model_quantized.onnx"
    );
    assert_eq!(path(Root::Project, Asset::FullModel), "models/qwen3-embedding-0.6b/model.onnx");
    assert_eq!(
        path(Root::LocalData, Asset::QuantizedTokenizer),
        "models/qwen3-embedding-0.6b-int8/tokenizer.json"
    );
    assert_eq!(path(Root::Resources, Asset::FullTokenizer), "_up_/models/qwen3-embedding-0.6b/tokenizer.json");
    assert_eq!(path(Root::Project, Asset::Embeddings), "embeddings/kjv-qwen3-0.6b.bin");
    assert_eq!(path(Root::Resources, Asset::VerseIds), "_up_/embeddings/kjv-qwen3-0.6b-ids.bin");
}

#[test]
fn temporary_files_differ_in_their_extension() {
    for (whole, part) in [
        (Asset::QuantizedModel, Asset::PartialModel),
        (Asset::QuantizedTokenizer, Asset::PartialTokenizer),
    ] {
        let whole = relative_path(&at(Root::LocalData, whole));
        let part = relative_path(&at(Root::LocalData, part));
        assert_eq!(Path::new(&whole).with_extension("tmp"), Path::new(&part));
    }
}

#[test]
fn paths_are_distinct() {
    let all = searched_locations();
    assert_eq!(all.len(), 15);
    for (i, a) in all.iter().enumerate() {
        for b in &all[..i] {
            assert_ne!(a, b);
            if a.root == b.root {
                assert_ne!(relative_path(a), relative_path(b));
            }
        }
    }
}

#[test]
fn a_file_below_an_unknown_root_is_not_there() {
    let l = at(Root::Resources, Asset::Database);
    assert!(is_there(&ALL, &vec![l], &l));
    assert!(!is_there(&NONE, &vec![l], &l));
    assert!(!is_there(&ALL, &vec![], &l));
    let l = at(Root::LocalData, Asset::QuantizedModel);
    assert!(!is_there(&NONE, &vec![l], &l));
    let l = at(Root::Project, Asset::Database);
    assert!(is_there(&NONE, &vec![l], &l));
}

#[test]
fn the_first_existing_model_is_taken() {
    let project = at(Root::Project, Asset::QuantizedModel);
    let local = at(Root::LocalData, Asset::QuantizedModel);
    let bundle = at(Root::Resources, Asset::QuantizedModel);
    assert_eq!(resolve_qwen_paths(&ALL, &vec![bundle, local, project]).0, project);
    assert_eq!(resolve_qwen_paths(&ALL, &vec![bundle, local]).0, local);
    assert_eq!(resolve_qwen_paths(&ALL, &vec![bundle]).0, bundle);
    // full weights are not considered on demand
    assert_eq!(resolve_qwen_paths(&ALL, &vec![at(Root::Project, Asset::FullModel)]).0, local);
}

#[test]
fn the_first_existing_tokenizer_is_taken() {
    let project = at(Root::Project, Asset::FullTokenizer);
    let local = at(Root::LocalData, Asset::QuantizedTokenizer);
    let bundle = at(Root::Resources, Asset::QuantizedTokenizer);
    let fallback = at(Root::Resources, Asset::FullTokenizer);
    assert_eq!(resolve_qwen_paths(&ALL, &vec![fallback, bundle, local, project]).1, project);
    assert_eq!(resolve_qwen_paths(&ALL, &vec![fallback, bundle, local]).1, local);
    assert_eq!(resolve_qwen_paths(&ALL, &vec![fallback, bundle]).1, bundle);
    assert_eq!(resolve_qwen_paths(&ALL, &vec![fallback]).1, fallback);
}

#[test]
fn missing_files_default_to_the_download_place() {
    assert_eq!(
        resolve_qwen_paths(&ALL, &vec![]),
        (at(Root::LocalData, Asset::QuantizedModel), at(Root::LocalData, Asset::QuantizedTokenizer))
    );
    assert_eq!(
        resolve_qwen_paths(&NONE, &vec![]),
        (at(Root::Project, Asset::QuantizedModel), at(Root::Project, Asset::FullTokenizer))
    );
}

#[test]
fn the_model_is_ready_when_both_files_exist() {
    let model = at(Root::LocalData, Asset::QuantizedModel);
    let tokenizer = at(Root::LocalData, Asset::QuantizedTokenizer);
    assert!(check_qwen_model(&ALL, &vec![model, tokenizer]));
    assert!(!check_qwen_model(&ALL, &vec![model]));
    assert!(!check_qwen_model(&ALL, &vec![tokenizer]));
    assert!(!check_qwen_model(&ALL, &vec![]));
    assert!(!check_qwen_model(&NONE, &vec![model, tokenizer]));
    assert!(check_qwen_model(&ALL, &vec![model, at(Root::Resources, Asset::FullTokenizer)]));
}

#[test]
fn unfinished_downloads_change_nothing() {
    let partial = vec![at(Root::LocalData, Asset::PartialModel), at(Root::LocalData, Asset::PartialTokenizer)];
    assert!(!check_qwen_model(&ALL, &partial));
    assert_eq!(resolve_qwen_paths(&ALL, &partial), resolve_qwen_paths(&ALL, &vec![]));
    assert!(!searched_locations().contains(&partial[0]));
    assert!(!searched_locations().contains(&partial[1]));
}

#[test]
fn bundled_files_are_taken_from_the_project_first() {
    for asset in [Asset::Embeddings, Asset::VerseIds, Asset::FullTokenizer] {
        let project = at(Root::Project, asset);
        let bundle = at(Root::Resources, asset);
        assert_eq!(resolve_bundled(&ALL, &vec![bundle, project], asset), project);
        assert_eq!(resolve_bundled(&ALL, &vec![bundle], asset), bundle);
        assert_eq!(resolve_bundled(&NONE, &vec![bundle], asset), project);
        assert_eq!(resolve_bundled(&ALL, &vec![], asset), project);
    }
}

#[test]
fn the_database_is_taken_from_the_bundle_first() {
    let project = at(Root::Project, Asset::Database);
    let bundle = at(Root::Resources, Asset::Database);
    assert_eq!(resolve_database(&ALL, &vec![project, bundle]), bundle);
    assert_eq!(resolve_database(&ALL, &vec![project]), project);
    assert_eq!(resolve_database(&ALL, &vec![]), project);
    assert_eq!(resolve_database(&NONE, &vec![project, bundle]), project);
}

#[test]
fn startup_prefers_the_quantized_model() {
    let order = [
        at(Root::Project, Asset::QuantizedModel),
        at(Root::Project, Asset::FullModel),
        at(Root::Resources, Asset::QuantizedModel),
        at(Root::Resources, Asset::FullModel),
    ];
    for i in 0..order.len() {
        assert_eq!(resolve_startup_model(&ALL, &order[i..].to_vec()), order[i]);
    }
    assert_eq!(resolve_startup_model(&ALL, &vec![]), at(Root::Project, Asset::FullModel));
}
