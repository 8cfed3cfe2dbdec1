//! Loading the embedding model and the verse index, on demand and at startup.
//!
//! Both are sequences of steps, some of which only the application can carry out. What
//! is to be done next is decided from the files that were found and from how the
//! steps taken so far went.
use vstd::prelude::*;

use crate::assets::{
    at, bundled_location, check_qwen_model, database_location, exists_at, first_existing, is_there,
    model_location, model_ready, resolve_bundled, resolve_database, resolve_qwen_paths,
    resolve_startup_model, startup_model_location, tokenizer_location, Asset, Directories, Location,
    Root,
};
use crate::text::joined;

verus! {

/// How a step went.
#[derive(Debug)]
pub enum Outcome {
    NotTried,
    Failed(String),
    Succeeded,
}

/// How the steps of loading went so far.
#[derive(Debug)]
pub struct LoadReport {
    /// Loading the embedding model together with its tokenizer.
    pub embedder: Outcome,
    /// Loading the index of the verses' vectors.
    pub index: Outcome,
}

/// Why the model could not be loaded.
#[derive(Debug)]
pub enum LoadError {
    /// The model or its tokenizer is not there.
    FilesMissing,
    /// The model could not be read; with the reason.
    Embedder(String),
    /// The index could not be read; with the reason.
    Index(String),
    /// The verses' vectors, or their identifiers, are not where they were looked for.
    EmbeddingsMissing { embeddings: Location, ids: Location },
}

/// What is to be done next to load the model.
#[derive(Debug)]
pub enum LoadAction {
    LoadEmbedder { model: Location, tokenizer: Location },
    LoadIndex { embeddings: Location, ids: Location },
    /// Hand the model and the index to the pipeline; loading has then succeeded.
    Install,
    Fail(LoadError),
}

/// What is to be done next to start the application.
#[derive(Debug)]
pub enum StartupAction {
    OpenDatabase(Location),
    LoadEmbedder { model: Location, tokenizer: Location },
    LoadIndex { embeddings: Location, ids: Location },
    /// Hand the model and the index to the pipeline; setup is then complete.
    Install,
    /// Setup is complete, without semantic search.
    Finish(StartupNote),
}

/// Why the application starts without semantic search.
#[derive(Debug)]
pub enum StartupNote {
    /// The model or its tokenizer is not there.
    ModelMissing,
    /// The model could not be read; with the reason.
    EmbedderFailed(String),
    /// The verses' vectors are not there.
    EmbeddingsMissing,
    /// The index could not be read; with the reason.
    IndexFailed(String),
}

impl Outcome {
    /// The reason of a failure.
    pub open spec fn reason(self) -> Seq<char> {
        match self {
            Outcome::Failed(e) => e@,
            _ => Seq::empty(),
        }
    }
}

/// Whether the verses' vectors and their identifiers are both there.
pub open spec fn index_ready(dirs: Directories, disk: Seq<Location>) -> bool {
    exists_at(dirs, disk, bundled_location(dirs, disk, Asset::Embeddings)) && exists_at(
        dirs,
        disk,
        bundled_location(dirs, disk, Asset::VerseIds),
    )
}

/// Whether `action` is the next step of loading the model: the files are checked, the
/// model is loaded, the index is loaded if its files are there, and both are installed.
pub open spec fn load_step(
    dirs: Directories,
    disk: Seq<Location>,
    report: LoadReport,
    action: LoadAction,
) -> bool {
    let embeddings = bundled_location(dirs, disk, Asset::Embeddings);
    let ids = bundled_location(dirs, disk, Asset::VerseIds);
    if !model_ready(dirs, disk) {
        action matches LoadAction::Fail(e) && e is FilesMissing
    } else if report.embedder is NotTried {
        action matches LoadAction::LoadEmbedder { model, tokenizer } && model == model_location(
            dirs,
            disk,
        ) && tokenizer == tokenizer_location(dirs, disk)
    } else if report.embedder is Failed {
        action matches LoadAction::Fail(e) && e matches LoadError::Embedder(reason) && reason@
            == report.embedder.reason()
    } else if !index_ready(dirs, disk) {
        action matches LoadAction::Fail(e) && e matches LoadError::EmbeddingsMissing {
            embeddings: looked_in,
            ids: looked_for_ids,
        } && looked_in == embeddings && looked_for_ids == ids
    } else if report.index is NotTried {
        action matches LoadAction::LoadIndex { embeddings: e, ids: i } && e == embeddings && i
            == ids
    } else if report.index is Failed {
        action matches LoadAction::Fail(e) && e matches LoadError::Index(reason) && reason@
            == report.index.reason()
    } else {
        action is Install
    }
}

/// Whether the model with which the application starts, and its tokenizer, are there.
pub open spec fn startup_model_ready(dirs: Directories, disk: Seq<Location>) -> bool {
    exists_at(dirs, disk, startup_model_location(dirs, disk)) && exists_at(
        dirs,
        disk,
        bundled_location(dirs, disk, Asset::FullTokenizer),
    )
}

/// Whether `action` is the next step of starting the application: the database is
/// opened if there is one, then the model and the index are loaded as far as their
/// files are there; a failure to load them does not stop the application.
pub open spec fn startup_step(
    dirs: Directories,
    disk: Seq<Location>,
    database_opened: bool,
    report: LoadReport,
    action: StartupAction,
) -> bool {
    let database = database_location(dirs, disk);
    if exists_at(dirs, disk, database) && !database_opened {
        action == StartupAction::OpenDatabase(database)
    } else if !startup_model_ready(dirs, disk) {
        action == StartupAction::Finish(StartupNote::ModelMissing)
    } else if report.embedder is NotTried {
        action == (StartupAction::LoadEmbedder {
            model: startup_model_location(dirs, disk),
            tokenizer: bundled_location(dirs, disk, Asset::FullTokenizer),
        })
    } else if report.embedder is Failed {
        action matches StartupAction::Finish(note) && note matches StartupNote::EmbedderFailed(
            reason,
        ) && reason@ == report.embedder.reason()
    } else if !index_ready(dirs, disk) {
        action == StartupAction::Finish(StartupNote::EmbeddingsMissing)
    } else if report.index is NotTried {
        action == (StartupAction::LoadIndex {
            embeddings: bundled_location(dirs, disk, Asset::Embeddings),
            ids: bundled_location(dirs, disk, Asset::VerseIds),
        })
    } else if report.index is Failed {
        action matches StartupAction::Finish(note) && note matches StartupNote::IndexFailed(
            reason,
        ) && reason@ == report.index.reason()
    } else {
        action is Install
    }
}

impl LoadReport {
    /// Nothing tried yet.
    pub fn none() -> (r: LoadReport)
        ensures
            r.embedder is NotTried,
            r.index is NotTried,
    {
        LoadReport { embedder: Outcome::NotTried, index: Outcome::NotTried }
    }
}

/// Decides the next step of loading the on-demand model into the pipeline.
pub fn load_qwen_model_into_pipeline(
    dirs: &Directories,
    disk: &Vec<Location>,
    report: &LoadReport,
) -> (action: LoadAction)
    ensures
        load_step(*dirs, disk@, *report, action),
{
    if !check_qwen_model(dirs, disk) {
        return LoadAction::Fail(LoadError::FilesMissing);
    }
    let (model, tokenizer) = resolve_qwen_paths(dirs, disk);
    let embeddings = resolve_bundled(dirs, disk, Asset::Embeddings);
    let ids = resolve_bundled(dirs, disk, Asset::VerseIds);
    match &report.embedder {
        Outcome::NotTried => LoadAction::LoadEmbedder { model, tokenizer },
        Outcome::Failed(e) => LoadAction::Fail(LoadError::Embedder(e.clone())),
        Outcome::Succeeded => {
            if !(is_there(dirs, disk, &embeddings) && is_there(dirs, disk, &ids)) {
                return LoadAction::Fail(LoadError::EmbeddingsMissing { embeddings, ids });
            }
            match &report.index {
                Outcome::NotTried => LoadAction::LoadIndex { embeddings, ids },
                Outcome::Failed(e) => LoadAction::Fail(LoadError::Index(e.clone())),
                Outcome::Succeeded => LoadAction::Install,
            }
        },
    }
}

/// Decides the next step of starting the application. `database_opened` tells whether
/// the database, where there is one, was opened.
pub fn run(
    dirs: &Directories,
    disk: &Vec<Location>,
    database_opened: bool,
    report: &LoadReport,
) -> (action: StartupAction)
    ensures
        startup_step(*dirs, disk@, database_opened, *report, action),
{
    let database = resolve_database(dirs, disk);
    if is_there(dirs, disk, &database) && !database_opened {
        return StartupAction::OpenDatabase(database);
    }
    let model = resolve_startup_model(dirs, disk);
    let tokenizer = resolve_bundled(dirs, disk, Asset::FullTokenizer);
    if !(is_there(dirs, disk, &model) && is_there(dirs, disk, &tokenizer)) {
        return StartupAction::Finish(StartupNote::ModelMissing);
    }
    let embeddings = resolve_bundled(dirs, disk, Asset::Embeddings);
    let ids = resolve_bundled(dirs, disk, Asset::VerseIds);
    match &report.embedder {
        Outcome::NotTried => StartupAction::LoadEmbedder { model, tokenizer },
        Outcome::Failed(e) => StartupAction::Finish(StartupNote::EmbedderFailed(e.clone())),
        Outcome::Succeeded => {
            if !(is_there(dirs, disk, &embeddings) && is_there(dirs, disk, &ids)) {
                return StartupAction::Finish(StartupNote::EmbeddingsMissing);
            }
            match &report.index {
                Outcome::NotTried => StartupAction::LoadIndex { embeddings, ids },
                Outcome::Failed(e) => StartupAction::Finish(StartupNote::IndexFailed(e.clone())),
                Outcome::Succeeded => StartupAction::Install,
            }
        },
    }
}

impl LoadError {
    /// The words in which the error is reported; the two paths are those of the
    /// missing files, as they are shown to the user.
    pub open spec fn words(self, embeddings_path: Seq<char>, ids_path: Seq<char>) -> Seq<char> {
        match self {
            LoadError::FilesMissing => "Qwen model or tokenizer files do not exist"@,
            LoadError::Embedder(reason) => "Failed to load ONNX embedder: "@ + reason@,
            LoadError::Index(reason) => "Failed to load HNSW vector index: "@ + reason@,
            LoadError::EmbeddingsMissing { .. } =>
            "Pre-computed verse embeddings not found (looked in "@ + embeddings_path + " and "@
                + ids_path + ")"@,
        }
    }

    /// Writes the error down for the user.
    pub fn message(&self, embeddings_path: &str, ids_path: &str) -> (text: String)
        ensures
            text@ == self.words(embeddings_path@, ids_path@),
    {
        match self {
            LoadError::FilesMissing => "Qwen model or tokenizer files do not exist".to_owned(),
            LoadError::Embedder(reason) => joined(
                "Failed to load ONNX embedder: ",
                reason.as_str(),
            ),
            LoadError::Index(reason) => joined(
                "Failed to load HNSW vector index: ",
                reason.as_str(),
            ),
            LoadError::EmbeddingsMissing { .. } => {
                let mut text = joined(
                    "Pre-computed verse embeddings not found (looked in ",
                    embeddings_path,
                );
                text.append(" and ");
                text.append(ids_path);
                text.append(")");
                text
            },
        }
    }
}

/// The model is installed only after it and the index were loaded, from files that
/// exist; and it is installed whenever that is so.
pub proof fn law_install_needs_everything(
    dirs: Directories,
    disk: Seq<Location>,
    report: LoadReport,
    action: LoadAction,
)
    requires
        load_step(dirs, disk, report, action),
    ensures
        action is Install <==> model_ready(dirs, disk) && index_ready(dirs, disk)
            && report.embedder is Succeeded && report.index is Succeeded,
{
}

/// Loading never opens a file that is not there, and the index is loaded only after
/// the model was.
pub proof fn law_only_existing_files_are_loaded(
    dirs: Directories,
    disk: Seq<Location>,
    report: LoadReport,
    action: LoadAction,
)
    requires
        load_step(dirs, disk, report, action),
    ensures
        action matches LoadAction::LoadEmbedder { model, tokenizer } ==> exists_at(
            dirs,
            disk,
            model,
        ) && exists_at(dirs, disk, tokenizer),
        action matches LoadAction::LoadIndex { embeddings, ids } ==> exists_at(
            dirs,
            disk,
            embeddings,
        ) && exists_at(dirs, disk, ids) && report.embedder is Succeeded,
{
}

/// The same holds when the application starts: only existing files are opened, and the
/// model is installed exactly when it and the index were loaded. The database is opened
/// before anything else, if and only if there is one.
pub proof fn law_startup_uses_existing_files(
    dirs: Directories,
    disk: Seq<Location>,
    database_opened: bool,
    report: LoadReport,
    action: StartupAction,
)
    requires
        startup_step(dirs, disk, database_opened, report, action),
    ensures
        action is OpenDatabase <==> !database_opened && exists_at(
            dirs,
            disk,
            database_location(dirs, disk),
        ),
        action matches StartupAction::OpenDatabase(database) ==> exists_at(dirs, disk, database),
        action matches StartupAction::LoadEmbedder { model, tokenizer } ==> exists_at(
            dirs,
            disk,
            model,
        ) && exists_at(dirs, disk, tokenizer),
        action matches StartupAction::LoadIndex { embeddings, ids } ==> exists_at(
            dirs,
            disk,
            embeddings,
        ) && exists_at(dirs, disk, ids) && report.embedder is Succeeded,
        action is Install <==> (database_opened || !exists_at(
            dirs,
            disk,
            database_location(dirs, disk),
        )) && startup_model_ready(dirs, disk) && index_ready(dirs, disk) && report.embedder
            is Succeeded && report.index is Succeeded,
{
}

/// Neither loading nor startup asks for a step again that was tried: each asks at most
/// for one model and one index, and then ends.
pub proof fn law_no_step_is_repeated(
    dirs: Directories,
    disk: Seq<Location>,
    report: LoadReport,
    load: LoadAction,
    startup: StartupAction,
    database_opened: bool,
)
    requires
        load_step(dirs, disk, report, load),
        startup_step(dirs, disk, database_opened, report, startup),
    ensures
        load is LoadEmbedder ==> report.embedder is NotTried,
        load is LoadIndex ==> report.index is NotTried,
        startup is LoadEmbedder ==> report.embedder is NotTried,
        startup is LoadIndex ==> report.index is NotTried,
        startup is OpenDatabase ==> !database_opened,
{
}

/// Startup prefers quantized weights to full ones within a root, and the project to
/// the bundle.
pub proof fn law_startup_prefers_quantized_weights(dirs: Directories, disk: Seq<Location>)
    ensures
        disk.contains(at(Root::Project, Asset::QuantizedModel)) ==> startup_model_location(
            dirs,
            disk,
        ) == at(Root::Project, Asset::QuantizedModel),
        startup_model_location(dirs, disk) == at(Root::Resources, Asset::FullModel) ==> !exists_at(
            dirs,
            disk,
            at(Root::Resources, Asset::QuantizedModel),
        ) && !disk.contains(at(Root::Project, Asset::QuantizedModel)) && !disk.contains(
            at(Root::Project, Asset::FullModel),
        ),
{
    reveal_with_fuel(first_existing, 6);
}

} // verus!
