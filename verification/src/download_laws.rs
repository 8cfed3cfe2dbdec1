//! What holds of every download, whatever the network and the disk do.
use vstd::prelude::*;

use crate::assets::{
    at, is_searched, law_downloaded_files_are_found, location_path, model_ready, Asset, Directories, Location, Root,
};
use crate::download::{
    accepts, asked, beginning, failure_words, final_location, next, partial_location, report_due, DownloadAction,
    DownloadEvent, DownloadView, Part, Stage, REPORT_INTERVAL,
};

verus! {

/// The state after a sequence of events.
pub open spec fn after(d: DownloadView, events: Seq<DownloadEvent<Seq<char>>>) -> DownloadView
    decreases events.len(),
{
    if events.len() == 0 {
        d
    } else {
        next(after(d, events.drop_last()), events.last())
    }
}

/// Whether each of the events answers what was asked at its time.
pub open spec fn accepted(d: DownloadView, events: Seq<DownloadEvent<Seq<char>>>) -> bool
    decreases events.len(),
{
    events.len() == 0 || (accepted(d, events.drop_last()) && accepts(
        after(d, events.drop_last()),
        events.last(),
    ))
}

/// How many bytes came in all.
pub open spec fn bytes_received(events: Seq<DownloadEvent<Seq<char>>>) -> int
    decreases events.len(),
{
    if events.len() == 0 {
        0
    } else {
        bytes_received(events.drop_last()) + (match events.last() {
            DownloadEvent::Chunk { length } => length as int,
            _ => 0,
        })
    }
}

/// How many bytes came and are not written yet.
pub open spec fn bytes_pending(stage: Stage) -> int {
    match stage {
        Stage::Writing(_, length) => length as int,
        _ => 0,
    }
}

/// Whether event `i` tells that a file was received to its end and flushed.
pub open spec fn flushed(
    d: DownloadView,
    events: Seq<DownloadEvent<Seq<char>>>,
    i: int,
    part: Part,
) -> bool {
    &&& 0 <= i < events.len()
    &&& after(d, events.take(i)).stage == Stage::Flushing(part)
    &&& events[i] is Succeeded
}

/// Whether event `i` tells that what was asked before it, `action`, succeeded.
pub open spec fn done(
    d: DownloadView,
    events: Seq<DownloadEvent<Seq<char>>>,
    i: int,
    action: DownloadAction<Seq<char>>,
) -> bool {
    &&& 0 <= i < events.len()
    &&& asked(after(d, events.take(i))) == action
    &&& events[i] is Succeeded
}

/// The action that moves a file into place.
pub open spec fn move_into_place(part: Part) -> DownloadAction<Seq<char>> {
    DownloadAction::Rename {
        from: partial_location(part),
        to: final_location(part),
    }
}

proof fn lemma_step(d: DownloadView, events: Seq<DownloadEvent<Seq<char>>>, i: int)
    requires
        accepted(d, events),
        0 <= i < events.len(),
    ensures
        accepted(d, events.take(i)),
        accepts(after(d, events.take(i)), events[i]),
        after(d, events.take(i + 1)) == next(after(d, events.take(i)), events[i]),
    decreases events.len(),
{
    let before = events.drop_last();
    if i == events.len() - 1 {
        assert(events.take(i) =~= before);
        assert(events.take(i + 1) =~= events);
    } else {
        lemma_step(d, before, i);
        assert(before.take(i) =~= events.take(i));
        assert(before.take(i + 1) =~= events.take(i + 1));
    }
}

/// The count of bytes is exact: until the download ends, the bytes of both files that
/// were written, with the chunk at hand, are all the bytes that came.
pub proof fn law_progress_counts_every_byte(
    dirs: Directories,
    disk: Seq<Location>,
    events: Seq<DownloadEvent<Seq<char>>>,
)
    requires
        accepted(beginning(dirs, disk), events),
        !(after(beginning(dirs, disk), events).stage is Ended),
    ensures
        after(beginning(dirs, disk), events).downloaded + bytes_pending(
            after(beginning(dirs, disk), events).stage,
        ) == bytes_received(events),
    decreases events.len(),
{
    if events.len() > 0 {
        law_progress_counts_every_byte(dirs, disk, events.drop_last());
    }
}

/// Where the files are there already, nothing is fetched, written or moved: the model
/// is loaded, if it was not, and that is all. It ends well only where the pipeline had
/// a model or one was loaded.
pub proof fn law_existing_files_are_not_fetched(
    dirs: Directories,
    disk: Seq<Location>,
    events: Seq<DownloadEvent<Seq<char>>>,
)
    requires
        model_ready(dirs, disk),
        accepted(beginning(dirs, disk), events),
    ensures
        ({
            let action = asked(after(beginning(dirs, disk), events));
            action is LockPipeline || action is LoadModel || action is Finish
        }),
        events.len() <= 2,
        asked(after(beginning(dirs, disk), events)) == DownloadAction::<Seq<char>>::Finish(Ok(()))
            ==> events.len() > 0 && (events.last() == DownloadEvent::<Seq<char>>::Locked {
            has_semantic: true,
        } || done(beginning(dirs, disk), events, events.len() - 1, DownloadAction::LoadModel)),
{
    lemma_existing_files(dirs, disk, events);
    if events.len() > 0 {
        lemma_existing_files(dirs, disk, events.drop_last());
        assert(events.take(events.len() - 1) =~= events.drop_last());
    }
}

proof fn lemma_existing_files(
    dirs: Directories,
    disk: Seq<Location>,
    events: Seq<DownloadEvent<Seq<char>>>,
)
    requires
        model_ready(dirs, disk),
        accepted(beginning(dirs, disk), events),
    ensures
        ({
            let stage = after(beginning(dirs, disk), events).stage;
            ||| stage is Inspecting && events.len() == 0
            ||| stage is LoadingExisting && events.len() == 1
            ||| stage is Ended && events.len() <= 2
        }),
    decreases events.len(),
{
    if events.len() > 0 {
        lemma_existing_files(dirs, disk, events.drop_last());
    }
}

/// Whether the stage comes after the model was received.
spec fn past_the_model(stage: Stage) -> bool {
    match stage {
        Stage::Requesting(part)
        | Stage::Creating(part)
        | Stage::Receiving(part)
        | Stage::Writing(part, _)
        | Stage::Reporting(part)
        | Stage::Flushing(part) => part is Tokenizer,
        Stage::Renaming(_)
        | Stage::LockingPipeline
        | Stage::Initializing
        | Stage::Announcing => true,
        _ => false,
    }
}

proof fn lemma_model_comes_first(
    dirs: Directories,
    disk: Seq<Location>,
    events: Seq<DownloadEvent<Seq<char>>>,
)
    requires
        !model_ready(dirs, disk),
        accepted(beginning(dirs, disk), events),
        past_the_model(after(beginning(dirs, disk), events).stage),
    ensures
        exists|i: int| #[trigger] flushed(beginning(dirs, disk), events, i, Part::Model),
    decreases events.len(),
{
    let d = beginning(dirs, disk);
    let before = events.drop_last();
    if past_the_model(after(d, before).stage) {
        lemma_model_comes_first(dirs, disk, before);
        let i = choose|i: int| #[trigger] flushed(d, before, i, Part::Model);
        assert(before.take(i) =~= events.take(i));
        assert(flushed(d, events, i, Part::Model));
    } else {
        assert(events.take(events.len() - 1) =~= before);
        assert(flushed(d, events, events.len() - 1, Part::Model));
    }
}

proof fn lemma_tokenizer_comes_second(
    dirs: Directories,
    disk: Seq<Location>,
    events: Seq<DownloadEvent<Seq<char>>>,
)
    requires
        !model_ready(dirs, disk),
        accepted(beginning(dirs, disk), events),
        after(beginning(dirs, disk), events).stage is Renaming,
    ensures
        exists|i: int, j: int|
            i < j && #[trigger] flushed(beginning(dirs, disk), events, i, Part::Model)
                && #[trigger] flushed(beginning(dirs, disk), events, j, Part::Tokenizer),
    decreases events.len(),
{
    let d = beginning(dirs, disk);
    let before = events.drop_last();
    let last = events.len() - 1;
    assert(events.take(last) =~= before);
    if after(d, before).stage is Renaming {
        lemma_tokenizer_comes_second(dirs, disk, before);
        let (i, j) = choose|i: int, j: int|
            i < j && #[trigger] flushed(d, before, i, Part::Model) && #[trigger] flushed(
                d,
                before,
                j,
                Part::Tokenizer,
            );
        assert(before.take(i) =~= events.take(i));
        assert(before.take(j) =~= events.take(j));
        assert(flushed(d, events, i, Part::Model));
        assert(flushed(d, events, j, Part::Tokenizer));
    } else {
        assert(flushed(d, events, last, Part::Tokenizer));
        lemma_model_comes_first(dirs, disk, before);
        let i = choose|i: int| #[trigger] flushed(d, before, i, Part::Model);
        assert(before.take(i) =~= events.take(i));
        assert(flushed(d, events, i, Part::Model));
    }
}

/// Files are moved into place only when both are complete: whatever comes of it later,
/// the model was received to its end before a move is asked for, and after it the
/// tokenizer.
pub proof fn law_moves_wait_for_both_files(
    dirs: Directories,
    disk: Seq<Location>,
    events: Seq<DownloadEvent<Seq<char>>>,
)
    requires
        accepted(beginning(dirs, disk), events),
        asked(after(beginning(dirs, disk), events)) is Rename,
    ensures
        exists|i: int, j: int|
            i < j && #[trigger] flushed(beginning(dirs, disk), events, i, Part::Model)
                && #[trigger] flushed(beginning(dirs, disk), events, j, Part::Tokenizer),
{
    if model_ready(dirs, disk) {
        lemma_existing_files(dirs, disk, events);
    } else {
        lemma_tokenizer_comes_second(dirs, disk, events);
    }
}

proof fn lemma_fetching_stages(
    dirs: Directories,
    disk: Seq<Location>,
    events: Seq<DownloadEvent<Seq<char>>>,
)
    requires
        !model_ready(dirs, disk),
        accepted(beginning(dirs, disk), events),
    ensures
        !(after(beginning(dirs, disk), events).stage is Inspecting),
        !(after(beginning(dirs, disk), events).stage is LoadingExisting),
    decreases events.len(),
{
    if events.len() > 0 {
        lemma_fetching_stages(dirs, disk, events.drop_last());
    }
}

/// A download that ends well has received the model to its end, then the tokenizer,
/// then moved both into place, loaded the model, and announced it; in this order, and
/// each of these succeeded.
#[verifier::rlimit(40)]
pub proof fn law_success_is_complete(
    dirs: Directories,
    disk: Seq<Location>,
    events: Seq<DownloadEvent<Seq<char>>>,
)
    requires
        !model_ready(dirs, disk),
        accepted(beginning(dirs, disk), events),
        asked(after(beginning(dirs, disk), events)) == DownloadAction::<Seq<char>>::Finish(Ok(())),
    ensures
        ({
            let d = beginning(dirs, disk);
            let n = events.len() as int;
            &&& exists|i: int| i < n - 6 && #[trigger] flushed(d, events, i, Part::Model)
            &&& flushed(d, events, n - 6, Part::Tokenizer)
            &&& done(d, events, n - 5, move_into_place(Part::Model))
            &&& done(d, events, n - 4, move_into_place(Part::Tokenizer))
            &&& asked(after(d, events.take(n - 3))) is LockPipeline
            &&& done(d, events, n - 2, DownloadAction::LoadModel)
            &&& done(d, events, n - 1, DownloadAction::Announce)
        }),
{
    let d = beginning(dirs, disk);
    let n = events.len() as int;
    assert(events.take(n) =~= events);
    assert(n > 0);
    lemma_step(d, events, n - 1);
    lemma_fetching_stages(dirs, disk, events.take(n - 1));
    assert(after(d, events.take(n - 1)).stage is Announcing);
    assert(n > 1);
    lemma_step(d, events, n - 2);
    assert(after(d, events.take(n - 2)).stage is Initializing);
    assert(n > 2);
    lemma_step(d, events, n - 3);
    lemma_fetching_stages(dirs, disk, events.take(n - 3));
    assert(after(d, events.take(n - 3)).stage is LockingPipeline);
    assert(n > 3);
    lemma_step(d, events, n - 4);
    assert(after(d, events.take(n - 4)).stage == Stage::Renaming(Part::Tokenizer));
    assert(n > 4);
    lemma_step(d, events, n - 5);
    assert(after(d, events.take(n - 5)).stage == Stage::Renaming(Part::Model));
    assert(n > 5);
    lemma_step(d, events, n - 6);
    assert(after(d, events.take(n - 6)).stage == Stage::Flushing(Part::Tokenizer));
    let before = events.take(n - 6);
    lemma_model_comes_first(dirs, disk, before);
    let i = choose|i: int| #[trigger] flushed(d, before, i, Part::Model);
    assert(before.take(i) =~= events.take(i));
    assert(flushed(d, events, i, Part::Model));
}

/// Once both files were moved into place, the model is ready: they stand where it is
/// looked for.
pub proof fn law_moved_files_are_ready(dirs: Directories, disk: Seq<Location>)
    requires
        dirs.local_data,
        disk.contains(final_location(Part::Model)),
        disk.contains(final_location(Part::Tokenizer)),
    ensures
        model_ready(dirs, disk),
{
    assert(final_location(Part::Model) == at(Root::LocalData, Asset::QuantizedModel));
    assert(final_location(Part::Tokenizer) == at(Root::LocalData, Asset::QuantizedTokenizer));
    law_downloaded_files_are_found(dirs, disk);
}

/// In every state, a file that is to be created lies where nothing is looked for, and a
/// file that is to be moved comes from there.
pub proof fn law_only_temporary_files_are_written(d: DownloadView)
    ensures
        asked(d) matches DownloadAction::CreateFile(l) ==> !is_searched(l),
        asked(d) matches DownloadAction::Rename { from, to } ==> !is_searched(from)
            && is_searched(to),
{
}

/// The first failure ends the download, and its report ends with the reason.
pub proof fn law_first_failure_ends_the_download(d: DownloadView, reason: Seq<char>)
    requires
        accepts(d, DownloadEvent::Failed(reason)),
    ensures
        asked(next(d, DownloadEvent::Failed(reason))) == DownloadAction::Finish(
            Err::<(), Seq<char>>(failure_words(d, reason)),
        ),
        failure_words(d, reason).len() >= reason.len(),
        failure_words(d, reason).skip(failure_words(d, reason).len() - reason.len()) == reason,
{
    let words = failure_words(d, reason);
    assert(words.skip(words.len() - reason.len()) =~= reason);
}

/// After a download has ended nothing more is accepted.
pub proof fn law_an_ended_download_stays_ended(
    d: DownloadView,
    e: DownloadEvent<Seq<char>>,
)
    requires
        d.stage is Ended,
    ensures
        !accepts(d, e),
        asked(d) is Finish,
{
}

/// Progress is reported after a chunk exactly when it is due; short of the end, two
/// reports are more than the interval apart.
pub proof fn law_reports_are_spaced(d: DownloadView, now: u128)
    requires
        d.stage is Writing,
        accepts(d, DownloadEvent::Written { now }),
    ensures
        ({
            let action = asked(next(d, DownloadEvent::Written { now }));
            let count = d.downloaded + bytes_pending(d.stage);
            &&& action is Report <==> report_due(d, count, now)
            &&& action matches DownloadAction::Report { downloaded, total } ==> downloaded == count
                && total == d.total_size && (downloaded == total || now - d.last_report
                > REPORT_INTERVAL)
        }),
{
}

/// When the last byte was written, completion is always reported.
pub proof fn law_completion_is_reported(d: DownloadView, now: u128)
    requires
        d.stage is Writing,
        accepts(d, DownloadEvent::Written { now }),
        d.downloaded + bytes_pending(d.stage) == d.total_size,
    ensures
        asked(next(d, DownloadEvent::Written { now })) == (DownloadAction::<Seq<char>>::Report {
            downloaded: d.total_size,
            total: d.total_size,
        }),
{
}

/// Once the sizes are known, the total stays as it is; and the count never falls.
pub proof fn law_progress_never_goes_back(d: DownloadView, e: DownloadEvent<Seq<char>>)
    requires
        accepts(d, e),
    ensures
        next(d, e).downloaded >= d.downloaded,
        !(d.stage is Sizing) ==> next(d, e).total_size == d.total_size,
        !(d.stage is Sizing) && !(d.stage is Reporting) ==> next(d, e).last_report
            == d.last_report,
{
}

/// Both files, complete or not, lie in the directory that is created for them; and a
/// file that is not complete has the name of the complete one with the ending `tmp`.
pub proof fn law_files_lie_in_the_download_directory(part: Part)
    ensures
        ({
            let directory = "models/qwen3-embedding-0.6b-int8/"@;
            let (stem, ending) = match part {
                Part::Model => ("model_quantized."@, "onnx"@),
                Part::Tokenizer => ("tokenizer."@, "json"@),
            };
            &&& location_path(final_location(part)) == directory + stem + ending
            &&& location_path(partial_location(part)) == directory + stem + "tmp"@
        }),
{
    reveal_strlit("models/qwen3-embedding-0.6b-int8/");
    reveal_strlit("model_quantized.");
    reveal_strlit("tokenizer.");
    reveal_strlit("onnx");
    reveal_strlit("json");
    reveal_strlit("tmp");
    reveal_strlit("models/qwen3-embedding-0.6b-int8/model_quantized.onnx");
    reveal_strlit("models/qwen3-embedding-0.6b-int8/tokenizer.json");
    reveal_strlit("models/qwen3-embedding-0.6b-int8/model_quantized.tmp");
    reveal_strlit("models/qwen3-embedding-0.6b-int8/tokenizer.tmp");
    let directory = "models/qwen3-embedding-0.6b-int8/"@;
    match part {
        Part::Model => {
            assert(location_path(final_location(part)) =~= directory + "model_quantized."@
                + "onnx"@);
            assert(location_path(partial_location(part)) =~= directory + "model_quantized."@
                + "tmp"@);
        },
        Part::Tokenizer => {
            assert(location_path(final_location(part)) =~= directory + "tokenizer."@ + "json"@);
            assert(location_path(partial_location(part)) =~= directory + "tokenizer."@ + "tmp"@);
        },
    }
}

} // verus!
