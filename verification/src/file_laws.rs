//! What holds of every choice of a file, and of every step of loading and startup, in
//! terms of what lies on disk.
use vstd::prelude::*;

use crate::assets::{
    bundled_location, database_location, exists_at, is_searched, location_path, model_location,
    model_ready, startup_model_location, tokenizer_location, Asset, Directories, Location, Root,
};
use crate::loading::{
    load_step, startup_step, LoadAction, LoadError, LoadReport, Outcome, StartupAction,
    StartupNote,
};

verus! {

/// Whether a file was found below the project directory.
pub open spec fn in_project(disk: Seq<Location>, asset: Asset) -> bool {
    disk.contains(Location { root: Root::Project, asset })
}

/// Whether the local data directory is known and a file was found below it.
pub open spec fn in_local_data(dirs: Directories, disk: Seq<Location>, asset: Asset) -> bool {
    dirs.local_data && disk.contains(Location { root: Root::LocalData, asset })
}

/// Whether the resource directory is known and a file was found below it.
pub open spec fn in_bundle(dirs: Directories, disk: Seq<Location>, asset: Asset) -> bool {
    dirs.resources && disk.contains(Location { root: Root::Resources, asset })
}

/// Whether a file was found in the project or in the bundle.
pub open spec fn in_either(dirs: Directories, disk: Seq<Location>, asset: Asset) -> bool {
    in_project(disk, asset) || in_bundle(dirs, disk, asset)
}

/// Whether the on-demand model was found in any of its three places, and its tokenizer in
/// any of its four.
pub open spec fn on_demand_files_found(dirs: Directories, disk: Seq<Location>) -> bool {
    &&& in_project(disk, Asset::QuantizedModel) || in_local_data(
        dirs,
        disk,
        Asset::QuantizedModel,
    ) || in_bundle(dirs, disk, Asset::QuantizedModel)
    &&& in_project(disk, Asset::FullTokenizer) || in_local_data(
        dirs,
        disk,
        Asset::QuantizedTokenizer,
    ) || in_bundle(dirs, disk, Asset::QuantizedTokenizer) || in_bundle(
        dirs,
        disk,
        Asset::FullTokenizer,
    )
}

/// Whether a model, quantized or full, was found in the project or the bundle, and the
/// tokenizer beside the full model in one of the two.
pub open spec fn startup_files_found(dirs: Directories, disk: Seq<Location>) -> bool {
    &&& in_either(dirs, disk, Asset::QuantizedModel) || in_either(dirs, disk, Asset::FullModel)
    &&& in_either(dirs, disk, Asset::FullTokenizer)
}

/// Whether the verses' vectors and their identifiers were each found in the project or
/// the bundle.
pub open spec fn index_files_found(dirs: Directories, disk: Seq<Location>) -> bool {
    in_either(dirs, disk, Asset::Embeddings) && in_either(dirs, disk, Asset::VerseIds)
}

/// Whether `chosen` is the project's copy of a file where there is one, and the bundle's
/// where only that is there.
pub open spec fn chosen_of_either(
    dirs: Directories,
    disk: Seq<Location>,
    asset: Asset,
    chosen: Location,
) -> bool {
    &&& chosen.asset == asset
    &&& in_project(disk, asset) ==> chosen.root is Project
    &&& !in_project(disk, asset) && in_bundle(dirs, disk, asset) ==> chosen.root is Resources
}

/// A file exists at a location exactly when it was found there and the root is known; the
/// project directory always is.
pub proof fn law_existing_means_found_below_a_known_root(
    dirs: Directories,
    disk: Seq<Location>,
    asset: Asset,
)
    ensures
        exists_at(dirs, disk, Location { root: Root::Project, asset }) <==> in_project(
            disk,
            asset,
        ),
        exists_at(dirs, disk, Location { root: Root::LocalData, asset }) <==> in_local_data(
            dirs,
            disk,
            asset,
        ),
        exists_at(dirs, disk, Location { root: Root::Resources, asset }) <==> in_bundle(
            dirs,
            disk,
            asset,
        ),
{
}

proof fn lemma_choices(dirs: Directories, disk: Seq<Location>)
    ensures
        model_location(dirs, disk).asset is QuantizedModel,
        model_location(dirs, disk).root == (if in_project(disk, Asset::QuantizedModel) {
            Root::Project
        } else if in_local_data(dirs, disk, Asset::QuantizedModel) {
            Root::LocalData
        } else if in_bundle(dirs, disk, Asset::QuantizedModel) {
            Root::Resources
        } else if dirs.local_data {
            Root::LocalData
        } else {
            Root::Project
        }),
        tokenizer_location(dirs, disk) == (if in_project(disk, Asset::FullTokenizer) {
            Location { root: Root::Project, asset: Asset::FullTokenizer }
        } else if in_local_data(dirs, disk, Asset::QuantizedTokenizer) {
            Location { root: Root::LocalData, asset: Asset::QuantizedTokenizer }
        } else if in_bundle(dirs, disk, Asset::QuantizedTokenizer) {
            Location { root: Root::Resources, asset: Asset::QuantizedTokenizer }
        } else if in_bundle(dirs, disk, Asset::FullTokenizer) {
            Location { root: Root::Resources, asset: Asset::FullTokenizer }
        } else if dirs.local_data {
            Location { root: Root::LocalData, asset: Asset::QuantizedTokenizer }
        } else {
            Location { root: Root::Project, asset: Asset::FullTokenizer }
        }),
        startup_model_location(dirs, disk) == (if in_project(disk, Asset::QuantizedModel) {
            Location { root: Root::Project, asset: Asset::QuantizedModel }
        } else if in_project(disk, Asset::FullModel) {
            Location { root: Root::Project, asset: Asset::FullModel }
        } else if in_bundle(dirs, disk, Asset::QuantizedModel) {
            Location { root: Root::Resources, asset: Asset::QuantizedModel }
        } else if in_bundle(dirs, disk, Asset::FullModel) {
            Location { root: Root::Resources, asset: Asset::FullModel }
        } else {
            Location { root: Root::Project, asset: Asset::FullModel }
        }),
        database_location(dirs, disk) == (if in_bundle(dirs, disk, Asset::Database) {
            Location { root: Root::Resources, asset: Asset::Database }
        } else {
            Location { root: Root::Project, asset: Asset::Database }
        }),
{
    reveal_with_fuel(crate::assets::first_existing, 6);
}

proof fn lemma_bundled_choice(dirs: Directories, disk: Seq<Location>, asset: Asset)
    ensures
        bundled_location(dirs, disk, asset) == (if !in_project(disk, asset) && in_bundle(
            dirs,
            disk,
            asset,
        ) {
            Location { root: Root::Resources, asset }
        } else {
            Location { root: Root::Project, asset }
        }),
{
    reveal_with_fuel(crate::assets::first_existing, 3);
}

/// The on-demand model is always the quantized one: the project's, else the downloaded
/// one, else the bundle's; and where there is none, the place to download it to, or the
/// project's where no local data directory is known.
pub proof fn law_on_demand_model_choice(dirs: Directories, disk: Seq<Location>)
    ensures
        model_location(dirs, disk).asset is QuantizedModel,
        model_location(dirs, disk).root is Project <==> in_project(disk, Asset::QuantizedModel)
            || (!dirs.local_data && !in_bundle(dirs, disk, Asset::QuantizedModel)),
        model_location(dirs, disk).root is LocalData <==> dirs.local_data && !in_project(
            disk,
            Asset::QuantizedModel,
        ) && (in_local_data(dirs, disk, Asset::QuantizedModel) || !in_bundle(
            dirs,
            disk,
            Asset::QuantizedModel,
        )),
{
    lemma_choices(dirs, disk);
}

/// The tokenizer is the one beside the project's full model, else the downloaded one, else
/// that beside the bundle's quantized model, else that beside its full model; and where
/// there is none, the place to download it to, or the project's.
pub proof fn law_on_demand_tokenizer_choice(dirs: Directories, disk: Seq<Location>)
    ensures
        ({
            let t = tokenizer_location(dirs, disk);
            let project = in_project(disk, Asset::FullTokenizer);
            let local = in_local_data(dirs, disk, Asset::QuantizedTokenizer);
            let bundle = in_bundle(dirs, disk, Asset::QuantizedTokenizer);
            let full = in_bundle(dirs, disk, Asset::FullTokenizer);
            &&& project ==> t.root is Project && t.asset is FullTokenizer
            &&& !project && local ==> t.root is LocalData && t.asset is QuantizedTokenizer
            &&& !project && !local && bundle ==> t.root is Resources && t.asset
                is QuantizedTokenizer
            &&& !project && !local && !bundle && full ==> t.root is Resources && t.asset
                is FullTokenizer
            &&& !project && !local && !bundle && !full && dirs.local_data ==> t.root is LocalData
                && t.asset is QuantizedTokenizer
            &&& !project && !local && !bundle && !full && !dirs.local_data ==> t.root is Project
                && t.asset is FullTokenizer
        }),
{
    lemma_choices(dirs, disk);
}

/// The application starts with a quantized model rather than a full one, within the
/// project first and then within the bundle; where there is none, the project's full
/// model is named. The database is the bundle's where it has one, else the project's.
pub proof fn law_startup_choices(dirs: Directories, disk: Seq<Location>)
    ensures
        ({
            let m = startup_model_location(dirs, disk);
            let quantized = in_project(disk, Asset::QuantizedModel);
            let full = in_project(disk, Asset::FullModel);
            let bundled = in_bundle(dirs, disk, Asset::QuantizedModel);
            let bundled_full = in_bundle(dirs, disk, Asset::FullModel);
            &&& quantized ==> m.root is Project && m.asset is QuantizedModel
            &&& !quantized && full ==> m.root is Project && m.asset is FullModel
            &&& !quantized && !full && bundled ==> m.root is Resources && m.asset is QuantizedModel
            &&& !quantized && !full && !bundled && bundled_full ==> m.root is Resources && m.asset
                is FullModel
            &&& !quantized && !full && !bundled && !bundled_full ==> m.root is Project && m.asset
                is FullModel
        }),
        database_location(dirs, disk).asset is Database,
        database_location(dirs, disk).root is Resources <==> in_bundle(
            dirs,
            disk,
            Asset::Database,
        ),
        database_location(dirs, disk).root is Project <==> !in_bundle(dirs, disk, Asset::Database),
{
    lemma_choices(dirs, disk);
}

/// A file that is in the project or in the bundle is taken from the project first, from
/// the bundle only where the project has none, and from nowhere else.
pub proof fn law_bundled_choice(dirs: Directories, disk: Seq<Location>, asset: Asset)
    ensures
        chosen_of_either(dirs, disk, asset, bundled_location(dirs, disk, asset)),
        !in_either(dirs, disk, asset) ==> bundled_location(dirs, disk, asset).root is Project,
{
    lemma_bundled_choice(dirs, disk, asset);
}

/// The on-demand model is ready exactly when it was found in one of its places, and its
/// tokenizer in one of its own.
pub proof fn law_ready_means_found(dirs: Directories, disk: Seq<Location>)
    ensures
        model_ready(dirs, disk) <==> on_demand_files_found(dirs, disk),
{
    lemma_choices(dirs, disk);
}

/// Loading goes by what lies on disk and by how its steps went. It fails for missing files
/// exactly where the model or its tokenizer was found nowhere; else it loads the model,
/// and fails exactly where that failed, with the reason; then it fails for missing
/// embeddings exactly where vectors or identifiers are neither in the project nor in the
/// bundle; else it loads the index, and fails exactly where that failed, with the reason;
/// and where all went well it installs both.
pub proof fn law_loading_follows_the_disk(
    dirs: Directories,
    disk: Seq<Location>,
    report: LoadReport,
    action: LoadAction,
)
    requires
        load_step(dirs, disk, report, action),
    ensures
        ({
            let model = on_demand_files_found(dirs, disk);
            let index = index_files_found(dirs, disk);
            let loaded = model && report.embedder is Succeeded;
            &&& (action matches LoadAction::Fail(LoadError::FilesMissing)) <==> !model
            &&& action is LoadEmbedder <==> model && report.embedder is NotTried
            &&& (action matches LoadAction::Fail(LoadError::Embedder(_))) <==> model
                && report.embedder is Failed
            &&& (action matches LoadAction::Fail(LoadError::EmbeddingsMissing { .. })) <==> loaded
                && !index
            &&& action is LoadIndex <==> loaded && index && report.index is NotTried
            &&& (action matches LoadAction::Fail(LoadError::Index(_))) <==> loaded && index
                && report.index is Failed
            &&& action is Install <==> loaded && index && report.index is Succeeded
        }),
        action matches LoadAction::Fail(LoadError::Embedder(e)) ==> (report.embedder matches
            Outcome::Failed(reason) && e@ == reason@),
        action matches LoadAction::Fail(LoadError::Index(e)) ==> (report.index matches
            Outcome::Failed(reason) && e@ == reason@),
{
    law_ready_means_found(dirs, disk);
    lemma_bundled_choice(dirs, disk, Asset::Embeddings);
    lemma_bundled_choice(dirs, disk, Asset::VerseIds);
}

/// Loading opens the files that were found: the model and tokenizer that the search finds
/// first, and of vectors and identifiers the project's copy where there is one, else the
/// bundle's. Where it fails for missing embeddings it names the same places.
pub proof fn law_loading_opens_what_was_found(
    dirs: Directories,
    disk: Seq<Location>,
    report: LoadReport,
    action: LoadAction,
)
    requires
        load_step(dirs, disk, report, action),
    ensures
        action matches LoadAction::LoadEmbedder { model, tokenizer } ==> {
            &&& disk.contains(model) && disk.contains(tokenizer)
            &&& model.asset is QuantizedModel
            &&& tokenizer.asset is QuantizedTokenizer || tokenizer.asset is FullTokenizer
            &&& model.root is Project <==> in_project(disk, Asset::QuantizedModel)
            &&& model.root is LocalData <==> !in_project(disk, Asset::QuantizedModel)
                && in_local_data(dirs, disk, Asset::QuantizedModel)
            &&& tokenizer.root is Project <==> in_project(disk, Asset::FullTokenizer)
            &&& tokenizer.root is LocalData <==> !in_project(disk, Asset::FullTokenizer)
                && in_local_data(dirs, disk, Asset::QuantizedTokenizer)
            &&& tokenizer.root is Resources ==> (tokenizer.asset is QuantizedTokenizer
                <==> in_bundle(dirs, disk, Asset::QuantizedTokenizer))
        },
        action matches LoadAction::LoadIndex { embeddings, ids } ==> {
            &&& disk.contains(embeddings) && disk.contains(ids)
            &&& chosen_of_either(dirs, disk, Asset::Embeddings, embeddings)
            &&& chosen_of_either(dirs, disk, Asset::VerseIds, ids)
        },
        action matches LoadAction::Fail(LoadError::EmbeddingsMissing { embeddings, ids }) ==> {
            &&& chosen_of_either(dirs, disk, Asset::Embeddings, embeddings)
            &&& chosen_of_either(dirs, disk, Asset::VerseIds, ids)
            &&& !in_either(dirs, disk, Asset::Embeddings) ==> embeddings.root is Project
            &&& !in_either(dirs, disk, Asset::VerseIds) ==> ids.root is Project
        },
{
    lemma_choices(dirs, disk);
    law_ready_means_found(dirs, disk);
    lemma_bundled_choice(dirs, disk, Asset::Embeddings);
    lemma_bundled_choice(dirs, disk, Asset::VerseIds);
}

/// Startup goes by what lies on disk and by how its steps went. The database is opened
/// first, exactly where there is one in the bundle or the project. Then the model is
/// loaded exactly where a quantized or full one, and the tokenizer beside the full one,
/// were each found in the project or the bundle; then the index, exactly where both of
/// its files were; and where all went well both are installed. Else setup ends with the
/// note that says which of these was missing or failed, and why.
pub proof fn law_startup_follows_the_disk(
    dirs: Directories,
    disk: Seq<Location>,
    database_opened: bool,
    report: LoadReport,
    action: StartupAction,
)
    requires
        startup_step(dirs, disk, database_opened, report, action),
    ensures
        ({
            let to_open = in_either(dirs, disk, Asset::Database) && !database_opened;
            let model = !to_open && startup_files_found(dirs, disk);
            let index = index_files_found(dirs, disk);
            let loaded = model && report.embedder is Succeeded;
            &&& action is OpenDatabase <==> to_open
            &&& (action matches StartupAction::Finish(StartupNote::ModelMissing)) <==> !to_open
                && !model
            &&& action is LoadEmbedder <==> model && report.embedder is NotTried
            &&& (action matches StartupAction::Finish(StartupNote::EmbedderFailed(_))) <==> model
                && report.embedder is Failed
            &&& (action matches StartupAction::Finish(StartupNote::EmbeddingsMissing)) <==> loaded
                && !index
            &&& action is LoadIndex <==> loaded && index && report.index is NotTried
            &&& (action matches StartupAction::Finish(StartupNote::IndexFailed(_))) <==> loaded
                && index && report.index is Failed
            &&& action is Install <==> loaded && index && report.index is Succeeded
        }),
        action matches StartupAction::Finish(StartupNote::EmbedderFailed(e)) ==> (
        report.embedder matches Outcome::Failed(reason) && e@ == reason@),
        action matches StartupAction::Finish(StartupNote::IndexFailed(e)) ==> (
        report.index matches Outcome::Failed(reason) && e@ == reason@),
{
    lemma_choices(dirs, disk);
    lemma_bundled_choice(dirs, disk, Asset::FullTokenizer);
    lemma_bundled_choice(dirs, disk, Asset::Embeddings);
    lemma_bundled_choice(dirs, disk, Asset::VerseIds);
}

/// Startup opens the files that were found: the bundle's database before the project's;
/// the project's model before the bundle's, and of one root the quantized one before the
/// full one; of tokenizer, vectors and identifiers the project's copy before the bundle's.
pub proof fn law_startup_opens_what_was_found(
    dirs: Directories,
    disk: Seq<Location>,
    database_opened: bool,
    report: LoadReport,
    action: StartupAction,
)
    requires
        startup_step(dirs, disk, database_opened, report, action),
    ensures
        action matches StartupAction::OpenDatabase(l) ==> {
            &&& disk.contains(l) && l.asset is Database
            &&& l.root is Resources <==> in_bundle(dirs, disk, Asset::Database)
            &&& l.root is Project <==> !in_bundle(dirs, disk, Asset::Database)
        },
        action matches StartupAction::LoadEmbedder { model, tokenizer } ==> {
            &&& disk.contains(model) && disk.contains(tokenizer)
            &&& model.root is Project <==> in_project(disk, Asset::QuantizedModel) || in_project(
                disk,
                Asset::FullModel,
            )
            &&& model.root is Project || model.root is Resources
            &&& model.asset is QuantizedModel || model.asset is FullModel
            &&& model.root is Project ==> (model.asset is QuantizedModel <==> in_project(
                disk,
                Asset::QuantizedModel,
            ))
            &&& model.root is Resources ==> (model.asset is QuantizedModel <==> in_bundle(
                dirs,
                disk,
                Asset::QuantizedModel,
            ))
            &&& chosen_of_either(dirs, disk, Asset::FullTokenizer, tokenizer)
        },
        action matches StartupAction::LoadIndex { embeddings, ids } ==> {
            &&& disk.contains(embeddings) && disk.contains(ids)
            &&& chosen_of_either(dirs, disk, Asset::Embeddings, embeddings)
            &&& chosen_of_either(dirs, disk, Asset::VerseIds, ids)
        },
{
    lemma_choices(dirs, disk);
    lemma_bundled_choice(dirs, disk, Asset::FullTokenizer);
    lemma_bundled_choice(dirs, disk, Asset::Embeddings);
    lemma_bundled_choice(dirs, disk, Asset::VerseIds);
}

/// Each failure to load is reported in its own words, with the whole reason or with both
/// paths.
pub proof fn law_load_failures_are_worded(
    error: LoadError,
    embeddings_path: Seq<char>,
    ids_path: Seq<char>,
)
    ensures
        ({
            let words = error.words(embeddings_path, ids_path);
            &&& error is FilesMissing ==> words == "Qwen model or tokenizer files do not exist"@
            &&& error matches LoadError::Embedder(reason) ==> words
                == "Failed to load ONNX embedder: "@ + reason@
            &&& error matches LoadError::Index(reason) ==> words
                == "Failed to load HNSW vector index: "@ + reason@
            &&& error is EmbeddingsMissing ==> words
                == "Pre-computed verse embeddings not found (looked in "@ + embeddings_path
                + " and "@ + ids_path + ")"@
        }),
{
}

/// Where each file lies below the project, and that it lies at the same path below the
/// local data directory, and below `_up_` in the bundle.
pub proof fn law_paths_below_the_roots(asset: Asset)
    ensures
        ({
            let project = location_path(Location { root: Root::Project, asset });
            &&& location_path(Location { root: Root::LocalData, asset }) == project
            &&& location_path(Location { root: Root::Resources, asset }) == "_up_/"@ + project
            &&& asset is Database ==> project == "data/rhema.db"@
            &&& asset is QuantizedModel ==> project
                == "models/qwen3-embedding-0.6b-int8/model_quantized.onnx"@
            &&& asset is FullModel ==> project == "models/qwen3-embedding-0.6b/model.onnx"@
            &&& asset is QuantizedTokenizer ==> project
                == "models/qwen3-embedding-0.6b-int8/tokenizer.json"@
            &&& asset is FullTokenizer ==> project == "models/qwen3-embedding-0.6b/tokenizer.json"@
            &&& asset is Embeddings ==> project == "embeddings/kjv-qwen3-0.6b.bin"@
            &&& asset is VerseIds ==> project == "embeddings/kjv-qwen3-0.6b-ids.bin"@
            &&& asset is PartialModel ==> project
                == "models/qwen3-embedding-0.6b-int8/model_quantized.tmp"@
            &&& asset is PartialTokenizer ==> project
                == "models/qwen3-embedding-0.6b-int8/tokenizer.tmp"@
        }),
{
}

/// Every place in which a choice can find a file is looked at; and no file that is only
/// partly there is ever looked for.
pub proof fn law_every_choice_is_looked_at(dirs: Directories, disk: Seq<Location>, asset: Asset)
    ensures
        is_searched(model_location(dirs, disk)),
        is_searched(tokenizer_location(dirs, disk)),
        is_searched(startup_model_location(dirs, disk)),
        is_searched(database_location(dirs, disk)),
        asset is FullTokenizer || asset is Embeddings || asset is VerseIds ==> is_searched(
            bundled_location(dirs, disk, asset),
        ),
        forall|root: Root|
            !(#[trigger] is_searched(Location { root, asset: Asset::PartialModel })),
        forall|root: Root|
            !(#[trigger] is_searched(Location { root, asset: Asset::PartialTokenizer })),
{
    lemma_choices(dirs, disk);
    lemma_bundled_choice(dirs, disk, asset);
}

} // verus!
