//! Where the files of the application are looked for.
//!
//! Every file has a path below one of three roots: the project directory of a
//! development build, the user's local data directory, into which the embedding model
//! is downloaded on demand, and the resource directory of an installed bundle. Each
//! file is searched for in a fixed list of locations, and the first one that exists
//! is taken.
use vstd::prelude::*;

use crate::text::joined;

verus! {

/// A directory below which files are looked for.
#[derive(Clone, Copy, Debug, PartialEq, Eq, Structural)]
pub enum Root {
    /// The project directory of a development build.
    Project,
    /// The user's local data directory.
    LocalData,
    /// The resource directory of an installed bundle.
    Resources,
}

/// A file of the application.
#[derive(Clone, Copy, Debug, PartialEq, Eq, Structural)]
pub enum Asset {
    /// The Bible database.
    Database,
    /// The embedding model, with weights quantized to eight bits.
    QuantizedModel,
    /// The embedding model, with full weights.
    FullModel,
    /// The tokenizer, beside the quantized model.
    QuantizedTokenizer,
    /// The tokenizer, beside the full model.
    FullTokenizer,
    /// The vectors of all verses.
    Embeddings,
    /// The identifiers of the verses that the vectors belong to.
    VerseIds,
    /// The quantized model while it is being downloaded.
    PartialModel,
    /// The tokenizer while it is being downloaded.
    PartialTokenizer,
}

/// A file below one of the roots.
#[derive(Clone, Copy, Debug, PartialEq, Eq, Structural)]
pub struct Location {
    pub root: Root,
    pub asset: Asset,
}

/// Which of the roots that may be missing are known. The project directory always is.
#[derive(Clone, Copy, Debug, PartialEq, Eq, Structural)]
pub struct Directories {
    pub local_data: bool,
    pub resources: bool,
}

/// The path of a file below the project and the local data directory.
pub open spec fn asset_path(asset: Asset) -> Seq<char> {
    match asset {
        Asset::Database => "data/rhema.db"@,
        Asset::QuantizedModel => "models/qwen3-embedding-0.6b-int8/model_quantized.onnx"@,
        Asset::FullModel => "models/qwen3-embedding-0.6b/model.onnx"@,
        Asset::QuantizedTokenizer => "models/qwen3-embedding-0.6b-int8/tokenizer.json"@,
        Asset::FullTokenizer => "models/qwen3-embedding-0.6b/tokenizer.json"@,
        Asset::Embeddings => "embeddings/kjv-qwen3-0.6b.bin"@,
        Asset::VerseIds => "embeddings/kjv-qwen3-0.6b-ids.bin"@,
        Asset::PartialModel => "models/qwen3-embedding-0.6b-int8/model_quantized.tmp"@,
        Asset::PartialTokenizer => "models/qwen3-embedding-0.6b-int8/tokenizer.tmp"@,
    }
}

/// The path of a location below its root. A bundle keeps what lies outside of the
/// application's own directory under `_up_`.
pub open spec fn location_path(location: Location) -> Seq<char> {
    match location.root {
        Root::Resources => "_up_/"@ + asset_path(location.asset),
        _ => asset_path(location.asset),
    }
}

/// Whether a root is known.
pub open spec fn known(dirs: Directories, root: Root) -> bool {
    match root {
        Root::Project => true,
        Root::LocalData => dirs.local_data,
        Root::Resources => dirs.resources,
    }
}

/// Whether there is a file at the location: its root is known and it is among those
/// that were found on disk.
pub open spec fn exists_at(dirs: Directories, disk: Seq<Location>, location: Location) -> bool {
    known(dirs, location.root) && disk.contains(location)
}

/// The first of the candidates that exists; `otherwise` where none does.
pub open spec fn first_existing(
    dirs: Directories,
    disk: Seq<Location>,
    candidates: Seq<Location>,
    otherwise: Location,
) -> Location
    decreases candidates.len(),
{
    if candidates.len() == 0 {
        otherwise
    } else if exists_at(dirs, disk, candidates[0]) {
        candidates[0]
    } else {
        first_existing(dirs, disk, candidates.skip(1), otherwise)
    }
}

/// A location, in short.
pub open spec fn at(root: Root, asset: Asset) -> Location {
    Location { root, asset }
}

/// Where the on-demand model is looked for.
pub open spec fn model_candidates() -> Seq<Location> {
    seq![
        at(Root::Project, Asset::QuantizedModel),
        at(Root::LocalData, Asset::QuantizedModel),
        at(Root::Resources, Asset::QuantizedModel),
    ]
}

/// Where the tokenizer of the on-demand model is looked for.
pub open spec fn tokenizer_candidates() -> Seq<Location> {
    seq![
        at(Root::Project, Asset::FullTokenizer),
        at(Root::LocalData, Asset::QuantizedTokenizer),
        at(Root::Resources, Asset::QuantizedTokenizer),
        at(Root::Resources, Asset::FullTokenizer),
    ]
}

/// Where the model is looked for when the application starts.
pub open spec fn startup_model_candidates() -> Seq<Location> {
    seq![
        at(Root::Project, Asset::QuantizedModel),
        at(Root::Project, Asset::FullModel),
        at(Root::Resources, Asset::QuantizedModel),
        at(Root::Resources, Asset::FullModel),
    ]
}

/// Where a file is looked for that is either in the project or in the bundle.
pub open spec fn bundled_candidates(asset: Asset) -> Seq<Location> {
    seq![at(Root::Project, asset), at(Root::Resources, asset)]
}

/// The on-demand model's location: the first candidate that exists, else the place
/// into which it is downloaded, else its place in the project.
pub open spec fn model_location(dirs: Directories, disk: Seq<Location>) -> Location {
    first_existing(
        dirs,
        disk,
        model_candidates(),
        if dirs.local_data {
            at(Root::LocalData, Asset::QuantizedModel)
        } else {
            at(Root::Project, Asset::QuantizedModel)
        },
    )
}

/// The location of the on-demand model's tokenizer, chosen in the same way.
pub open spec fn tokenizer_location(dirs: Directories, disk: Seq<Location>) -> Location {
    first_existing(
        dirs,
        disk,
        tokenizer_candidates(),
        if dirs.local_data {
            at(Root::LocalData, Asset::QuantizedTokenizer)
        } else {
            at(Root::Project, Asset::FullTokenizer)
        },
    )
}

/// The location of a file that is either in the project or in the bundle; the project
/// where it is in neither.
pub open spec fn bundled_location(
    dirs: Directories,
    disk: Seq<Location>,
    asset: Asset,
) -> Location {
    first_existing(dirs, disk, bundled_candidates(asset), at(Root::Project, asset))
}

/// The location of the Bible database: the bundle's where it has one, else the
/// project's.
pub open spec fn database_location(dirs: Directories, disk: Seq<Location>) -> Location {
    first_existing(
        dirs,
        disk,
        seq![at(Root::Resources, Asset::Database)],
        at(Root::Project, Asset::Database),
    )
}

/// The location of the model with which the application starts: quantized before full
/// weights, the project before the bundle.
pub open spec fn startup_model_location(dirs: Directories, disk: Seq<Location>) -> Location {
    first_existing(
        dirs,
        disk,
        startup_model_candidates(),
        at(Root::Project, Asset::FullModel),
    )
}

/// Whether the on-demand model and its tokenizer are both there.
pub open spec fn model_ready(dirs: Directories, disk: Seq<Location>) -> bool {
    exists_at(dirs, disk, model_location(dirs, disk)) && exists_at(
        dirs,
        disk,
        tokenizer_location(dirs, disk),
    )
}

/// Writes the path of a location below its root.
pub fn relative_path(location: &Location) -> (path: String)
    ensures
        path@ == location_path(*location),
{
    let below: &str = match location.asset {
        Asset::Database => "data/rhema.db",
        Asset::QuantizedModel => "models/qwen3-embedding-0.6b-int8/model_quantized.onnx",
        Asset::FullModel => "models/qwen3-embedding-0.6b/model.onnx",
        Asset::QuantizedTokenizer => "models/qwen3-embedding-0.6b-int8/tokenizer.json",
        Asset::FullTokenizer => "models/qwen3-embedding-0.6b/tokenizer.json",
        Asset::Embeddings => "embeddings/kjv-qwen3-0.6b.bin",
        Asset::VerseIds => "embeddings/kjv-qwen3-0.6b-ids.bin",
        Asset::PartialModel => "models/qwen3-embedding-0.6b-int8/model_quantized.tmp",
        Asset::PartialTokenizer => "models/qwen3-embedding-0.6b-int8/tokenizer.tmp",
    };
    match location.root {
        Root::Resources => joined("_up_/", below),
        _ => below.to_owned(),
    }
}

/// Tells whether there is a file at the location.
pub fn is_there(dirs: &Directories, disk: &Vec<Location>, location: &Location) -> (b: bool)
    ensures
        b == exists_at(*dirs, disk@, *location),
{
    let root_known = match location.root {
        Root::Project => true,
        Root::LocalData => dirs.local_data,
        Root::Resources => dirs.resources,
    };
    if !root_known {
        return false;
    }
    for i in 0..disk.len()
        invariant
            known(*dirs, location.root),
            forall|j: int| 0 <= j < i ==> disk@[j] != *location,
    {
        if disk[i] == *location {
            return true;
        }
    }
    false
}

/// Chooses the first candidate that exists, or `otherwise`.
fn choose_location(
    dirs: &Directories,
    disk: &Vec<Location>,
    candidates: &Vec<Location>,
    otherwise: Location,
) -> (chosen: Location)
    ensures
        chosen == first_existing(*dirs, disk@, candidates@, otherwise),
{
    assert(candidates@.skip(0) =~= candidates@);
    for i in 0..candidates.len()
        invariant
            first_existing(*dirs, disk@, candidates@, otherwise) == first_existing(
                *dirs,
                disk@,
                candidates@.skip(i as int),
                otherwise,
            ),
    {
        assert(candidates@.skip(i as int).skip(1) =~= candidates@.skip(i + 1));
        if is_there(dirs, disk, &candidates[i]) {
            return candidates[i];
        }
    }
    otherwise
}

fn place(root: Root, asset: Asset) -> (l: Location)
    ensures
        l == at(root, asset),
{
    Location { root, asset }
}

/// Finds the on-demand embedding model and its tokenizer.
pub fn resolve_qwen_paths(dirs: &Directories, disk: &Vec<Location>) -> (paths: (
    Location,
    Location,
))
    ensures
        paths.0 == model_location(*dirs, disk@),
        paths.1 == tokenizer_location(*dirs, disk@),
{
    let models: Vec<Location> = vec![
        place(Root::Project, Asset::QuantizedModel),
        place(Root::LocalData, Asset::QuantizedModel),
        place(Root::Resources, Asset::QuantizedModel),
    ];
    let tokenizers: Vec<Location> = vec![
        place(Root::Project, Asset::FullTokenizer),
        place(Root::LocalData, Asset::QuantizedTokenizer),
        place(Root::Resources, Asset::QuantizedTokenizer),
        place(Root::Resources, Asset::FullTokenizer),
    ];
    assert(models@ =~= model_candidates());
    assert(tokenizers@ =~= tokenizer_candidates());
    let model_otherwise = if dirs.local_data {
        place(Root::LocalData, Asset::QuantizedModel)
    } else {
        place(Root::Project, Asset::QuantizedModel)
    };
    let tokenizer_otherwise = if dirs.local_data {
        place(Root::LocalData, Asset::QuantizedTokenizer)
    } else {
        place(Root::Project, Asset::FullTokenizer)
    };
    (
        choose_location(dirs, disk, &models, model_otherwise),
        choose_location(dirs, disk, &tokenizers, tokenizer_otherwise),
    )
}

/// Finds a file that is either in the project or in the bundle.
pub fn resolve_bundled(dirs: &Directories, disk: &Vec<Location>, asset: Asset) -> (l: Location)
    ensures
        l == bundled_location(*dirs, disk@, asset),
{
    let candidates: Vec<Location> = vec![
        place(Root::Project, asset),
        place(Root::Resources, asset),
    ];
    assert(candidates@ =~= bundled_candidates(asset));
    choose_location(dirs, disk, &candidates, place(Root::Project, asset))
}

/// Finds the Bible database.
pub fn resolve_database(dirs: &Directories, disk: &Vec<Location>) -> (l: Location)
    ensures
        l == database_location(*dirs, disk@),
{
    let candidates: Vec<Location> = vec![place(Root::Resources, Asset::Database)];
    assert(candidates@ =~= seq![at(Root::Resources, Asset::Database)]);
    choose_location(dirs, disk, &candidates, place(Root::Project, Asset::Database))
}

/// Finds the embedding model with which the application starts.
pub fn resolve_startup_model(dirs: &Directories, disk: &Vec<Location>) -> (l: Location)
    ensures
        l == startup_model_location(*dirs, disk@),
{
    let candidates: Vec<Location> = vec![
        place(Root::Project, Asset::QuantizedModel),
        place(Root::Project, Asset::FullModel),
        place(Root::Resources, Asset::QuantizedModel),
        place(Root::Resources, Asset::FullModel),
    ];
    assert(candidates@ =~= startup_model_candidates());
    choose_location(dirs, disk, &candidates, place(Root::Project, Asset::FullModel))
}

/// Tells whether the on-demand model and its tokenizer are both there.
pub fn check_qwen_model(dirs: &Directories, disk: &Vec<Location>) -> (ready: bool)
    ensures
        ready == model_ready(*dirs, disk@),
{
    let (model, tokenizer) = resolve_qwen_paths(dirs, disk);
    is_there(dirs, disk, &model) && is_there(dirs, disk, &tokenizer)
}

/// Whether a file is ever looked for at this location.
pub open spec fn is_searched(location: Location) -> bool {
    match location.root {
        Root::Project => !(location.asset is QuantizedTokenizer || location.asset is PartialModel
            || location.asset is PartialTokenizer),
        Root::LocalData => location.asset is QuantizedModel || location.asset
            is QuantizedTokenizer,
        Root::Resources => !(location.asset is PartialModel || location.asset
            is PartialTokenizer),
    }
}

/// All the locations at which a file is ever looked for.
pub fn searched_locations() -> (all: Vec<Location>)
    ensures
        forall|l: Location| #[trigger] all@.contains(l) <==> is_searched(l),
{
    let all: Vec<Location> = vec![
        place(Root::Project, Asset::Database),
        place(Root::Project, Asset::QuantizedModel),
        place(Root::Project, Asset::FullModel),
        place(Root::Project, Asset::FullTokenizer),
        place(Root::Project, Asset::Embeddings),
        place(Root::Project, Asset::VerseIds),
        place(Root::LocalData, Asset::QuantizedModel),
        place(Root::LocalData, Asset::QuantizedTokenizer),
        place(Root::Resources, Asset::Database),
        place(Root::Resources, Asset::QuantizedModel),
        place(Root::Resources, Asset::FullModel),
        place(Root::Resources, Asset::QuantizedTokenizer),
        place(Root::Resources, Asset::FullTokenizer),
        place(Root::Resources, Asset::Embeddings),
        place(Root::Resources, Asset::VerseIds),
    ];
    assert forall|l: Location| is_searched(l) implies #[trigger] all@.contains(l) by {
        let i: int = match (l.root, l.asset) {
            (Root::Project, Asset::Database) => 0,
            (Root::Project, Asset::QuantizedModel) => 1,
            (Root::Project, Asset::FullModel) => 2,
            (Root::Project, Asset::FullTokenizer) => 3,
            (Root::Project, Asset::Embeddings) => 4,
            (Root::Project, _) => 5,
            (Root::LocalData, Asset::QuantizedModel) => 6,
            (Root::LocalData, _) => 7,
            (Root::Resources, Asset::Database) => 8,
            (Root::Resources, Asset::QuantizedModel) => 9,
            (Root::Resources, Asset::FullModel) => 10,
            (Root::Resources, Asset::QuantizedTokenizer) => 11,
            (Root::Resources, Asset::FullTokenizer) => 12,
            (Root::Resources, Asset::Embeddings) => 13,
            (Root::Resources, _) => 14,
        };
        assert(all@[i] == l);
    }
    all
}

/// The location that is chosen is the first candidate that exists; where none exists
/// it is the one given for that case.
pub proof fn law_first_existing_is_first(
    dirs: Directories,
    disk: Seq<Location>,
    candidates: Seq<Location>,
    otherwise: Location,
)
    ensures
        (exists|i: int|
            0 <= i < candidates.len() && first_existing(dirs, disk, candidates, otherwise)
                == candidates[i] && exists_at(dirs, disk, #[trigger] candidates[i]) && (forall|
                j: int,
            |
                0 <= j < i ==> !exists_at(dirs, disk, #[trigger] candidates[j]))) || (
        first_existing(dirs, disk, candidates, otherwise) == otherwise && (forall|j: int|
            0 <= j < candidates.len() ==> !exists_at(dirs, disk, #[trigger] candidates[j]))),
    decreases candidates.len(),
{
    if candidates.len() > 0 {
        if exists_at(dirs, disk, candidates[0]) {
        } else {
            let rest = candidates.skip(1);
            law_first_existing_is_first(dirs, disk, rest, otherwise);
            assert forall|j: int|
                0 <= j < candidates.len() - 1 implies #[trigger] rest[j] == candidates[j + 1] by {}
            if exists|i: int|
                0 <= i < rest.len() && first_existing(dirs, disk, rest, otherwise) == rest[i]
                    && exists_at(dirs, disk, #[trigger] rest[i]) && (forall|j: int|
                    0 <= j < i ==> !exists_at(dirs, disk, #[trigger] rest[j])) {
                let i = choose|i: int|
                    0 <= i < rest.len() && first_existing(dirs, disk, rest, otherwise) == rest[i]
                        && exists_at(dirs, disk, #[trigger] rest[i]) && (forall|j: int|
                        0 <= j < i ==> !exists_at(dirs, disk, #[trigger] rest[j]));
                assert(candidates[i + 1] == rest[i]);
                assert forall|j: int| 0 <= j < i + 1 implies !exists_at(
                    dirs,
                    disk,
                    #[trigger] candidates[j],
                ) by {
                    if j > 0 {
                        assert(rest[j - 1] == candidates[j]);
                    }
                }
            } else {
                assert forall|j: int| 0 <= j < candidates.len() implies !exists_at(
                    dirs,
                    disk,
                    #[trigger] candidates[j],
                ) by {
                    if j > 0 {
                        assert(rest[j - 1] == candidates[j]);
                    }
                }
            }
        }
    }
}

proof fn lemma_same_choice(
    dirs: Directories,
    first: Seq<Location>,
    second: Seq<Location>,
    candidates: Seq<Location>,
    otherwise: Location,
)
    requires
        forall|l: Location| is_searched(l) ==> (#[trigger] first.contains(l) <==> second.contains(l)),
        forall|i: int| 0 <= i < candidates.len() ==> is_searched(#[trigger] candidates[i]),
    ensures
        first_existing(dirs, first, candidates, otherwise) == first_existing(
            dirs,
            second,
            candidates,
            otherwise,
        ),
    decreases candidates.len(),
{
    if candidates.len() > 0 {
        assert(is_searched(candidates[0]));
        assert(first.contains(candidates[0]) <==> second.contains(candidates[0]));
        lemma_same_choice(dirs, first, second, candidates.skip(1), otherwise);
    }
}

/// What is chosen depends only on the locations at which files are looked for:
/// anything else on disk, such as a download that is not finished, changes nothing.
pub proof fn law_only_searched_locations_matter(
    dirs: Directories,
    first: Seq<Location>,
    second: Seq<Location>,
    asset: Asset,
)
    requires
        forall|l: Location| is_searched(l) ==> (#[trigger] first.contains(l) <==> second.contains(l)),
        asset is Database || asset is FullTokenizer || asset is Embeddings || asset is VerseIds,
    ensures
        model_location(dirs, first) == model_location(dirs, second),
        tokenizer_location(dirs, first) == tokenizer_location(dirs, second),
        startup_model_location(dirs, first) == startup_model_location(dirs, second),
        bundled_location(dirs, first, asset) == bundled_location(dirs, second, asset),
        database_location(dirs, first) == database_location(dirs, second),
        model_ready(dirs, first) == model_ready(dirs, second),
{
    let local_model = at(Root::LocalData, Asset::QuantizedModel);
    let project_model = at(Root::Project, Asset::QuantizedModel);
    let local_tokenizer = at(Root::LocalData, Asset::QuantizedTokenizer);
    let project_tokenizer = at(Root::Project, Asset::FullTokenizer);
    lemma_same_choice(dirs, first, second, model_candidates(), local_model);
    lemma_same_choice(dirs, first, second, model_candidates(), project_model);
    lemma_same_choice(dirs, first, second, tokenizer_candidates(), local_tokenizer);
    lemma_same_choice(dirs, first, second, tokenizer_candidates(), project_tokenizer);
    lemma_same_choice(
        dirs,
        first,
        second,
        startup_model_candidates(),
        at(Root::Project, Asset::FullModel),
    );
    lemma_same_choice(dirs, first, second, bundled_candidates(asset), at(Root::Project, asset));
    lemma_same_choice(
        dirs,
        first,
        second,
        seq![at(Root::Resources, Asset::Database)],
        at(Root::Project, Asset::Database),
    );
    law_model_locations_are_searched(dirs, first);
    assert(is_searched(model_location(dirs, first)));
    assert(is_searched(tokenizer_location(dirs, first)));
    assert(first.contains(model_location(dirs, first)) <==> second.contains(
        model_location(dirs, first),
    ));
    assert(first.contains(tokenizer_location(dirs, first)) <==> second.contains(
        tokenizer_location(dirs, first),
    ));
}

/// The model and its tokenizer are only ever taken from locations that are looked at,
/// so never from a download that is not finished.
pub proof fn law_model_locations_are_searched(dirs: Directories, disk: Seq<Location>)
    ensures
        is_searched(model_location(dirs, disk)),
        is_searched(tokenizer_location(dirs, disk)),
        !is_searched(at(Root::LocalData, Asset::PartialModel)),
        !is_searched(at(Root::LocalData, Asset::PartialTokenizer)),
{
    reveal_with_fuel(first_existing, 6);
}

/// The model is ready exactly when it exists in one of its places and the tokenizer
/// in one of its own.
pub proof fn law_ready_means_both_exist(dirs: Directories, disk: Seq<Location>)
    ensures
        model_ready(dirs, disk) <==> (exists|i: int|
            0 <= i < model_candidates().len() && exists_at(
                dirs,
                disk,
                #[trigger] model_candidates()[i],
            )) && (exists|i: int|
            0 <= i < tokenizer_candidates().len() && exists_at(
                dirs,
                disk,
                #[trigger] tokenizer_candidates()[i],
            )),
{
    reveal_with_fuel(first_existing, 6);
    let m = model_candidates();
    let t = tokenizer_candidates();
    assert(m.skip(1)[0] == m[1] && m.skip(1).skip(1)[0] == m[2]);
    assert(t.skip(1)[0] == t[1] && t.skip(1).skip(1)[0] == t[2] && t.skip(1).skip(1).skip(1)[0]
        == t[3]);
}

/// Once the model and its tokenizer stand in the local data directory, where a
/// download puts them, the model is ready; and they are the files that are used
/// unless the project has its own.
pub proof fn law_downloaded_files_are_found(dirs: Directories, disk: Seq<Location>)
    requires
        dirs.local_data,
        disk.contains(at(Root::LocalData, Asset::QuantizedModel)),
        disk.contains(at(Root::LocalData, Asset::QuantizedTokenizer)),
    ensures
        model_ready(dirs, disk),
        !disk.contains(at(Root::Project, Asset::QuantizedModel)) ==> model_location(dirs, disk)
            == at(Root::LocalData, Asset::QuantizedModel),
        !disk.contains(at(Root::Project, Asset::FullTokenizer)) ==> tokenizer_location(dirs, disk)
            == at(Root::LocalData, Asset::QuantizedTokenizer),
{
    reveal_with_fuel(first_existing, 6);
    law_ready_means_both_exist(dirs, disk);
    assert(exists_at(dirs, disk, model_candidates()[1]));
    assert(exists_at(dirs, disk, tokenizer_candidates()[1]));
}

/// Different files have different paths below a root.
pub proof fn law_paths_are_distinct(root: Root, first: Asset, second: Asset)
    requires
        first != second,
    ensures
        location_path(at(root, first)) != location_path(at(root, second)),
{
    reveal_strlit("data/rhema.db");
    reveal_strlit("models/qwen3-embedding-0.6b-int8/model_quantized.onnx");
    reveal_strlit("models/qwen3-embedding-0.6b/model.onnx");
    reveal_strlit("models/qwen3-embedding-0.6b-int8/tokenizer.json");
    reveal_strlit("models/qwen3-embedding-0.6b/tokenizer.json");
    reveal_strlit("embeddings/kjv-qwen3-0.6b.bin");
    reveal_strlit("embeddings/kjv-qwen3-0.6b-ids.bin");
    reveal_strlit("models/qwen3-embedding-0.6b-int8/model_quantized.tmp");
    reveal_strlit("models/qwen3-embedding-0.6b-int8/tokenizer.tmp");
    assert(location_path(at(root, first)).len() != location_path(at(root, second)).len());
}

} // verus!
