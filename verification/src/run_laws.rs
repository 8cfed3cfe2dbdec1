//! How a download goes, told by what is asked of the application and what it answers.
use vstd::prelude::*;

use crate::assets::{Asset, Directories, Location, Root};
use crate::download::{
    accepts, action_view, asked, beginning, event_view, next, DownloadAction, DownloadEvent,
    DownloadView, Part, Stage,
};
use crate::download_laws::{
    accepted, after, bytes_pending, bytes_received, done, law_progress_counts_every_byte,
};
use crate::file_laws::{law_ready_means_found, on_demand_files_found};
use crate::http::status_reason;
use crate::text::decimal;

verus! {

/// The path of the model on the server.
pub open spec fn model_path() -> Seq<char> {
    "/onnx-community/Qwen3-Embedding-0.6B-ONNX/resolve/main/onnx/model_quantized.onnx"@
}

/// The path of the tokenizer on the server.
pub open spec fn tokenizer_path() -> Seq<char> {
    "/onnx-community/Qwen3-Embedding-0.6B-ONNX/resolve/main/tokenizer.json"@
}

/// A file below the local data directory.
pub open spec fn local(asset: Asset) -> Location {
    Location { root: Root::LocalData, asset }
}

/// Whether an event is about one chunk of a file: it came, it was written, or progress
/// was reported after it.
pub open spec fn about_a_chunk(e: DownloadEvent<Seq<char>>) -> bool {
    e is Chunk || e is Written || e is Reported
}

/// Whether an event is no failure: nothing failed, and a response was a success.
pub open spec fn went_well(e: DownloadEvent<Seq<char>>) -> bool {
    &&& !(e is Failed)
    &&& e matches DownloadEvent::Status(code) ==> 200 <= code <= 299
}

/// Whether nothing failed in a run.
pub open spec fn smooth(events: Seq<DownloadEvent<Seq<char>>>) -> bool {
    forall|i: int| 0 <= i < events.len() ==> went_well(#[trigger] events[i])
}

/// How many events of a run were not about a chunk.
pub open spec fn steps(events: Seq<DownloadEvent<Seq<char>>>) -> int
    decreases events.len(),
{
    if events.len() == 0 {
        0
    } else {
        steps(events.drop_last()) + (if about_a_chunk(events.last()) {
            0int
        } else {
            1
        })
    }
}

/// The server that was configured, as the third event tells, or the usual one.
pub open spec fn server(events: Seq<DownloadEvent<Seq<char>>>) -> Seq<char> {
    match events[2] {
        DownloadEvent::Endpoint(Some(s)) => s,
        _ => "https://huggingface.co"@,
    }
}

/// The size that an event tells, or the one that is known.
pub open spec fn told(e: DownloadEvent<Seq<char>>, otherwise: int) -> int {
    match e {
        DownloadEvent::Length { reported: Some(n), .. } => n as int,
        _ => otherwise,
    }
}

/// The size of both files, as the fourth and fifth event tell.
pub open spec fn total_told(events: Seq<DownloadEvent<Seq<char>>>) -> int {
    told(events[3], 597_990_265) + told(events[4], 11_423_705)
}

/// When progress was last reported, or the last size was told.
pub open spec fn last_time(events: Seq<DownloadEvent<Seq<char>>>) -> int
    decreases events.len(),
{
    if events.len() == 0 {
        0
    } else {
        match events.last() {
            DownloadEvent::Reported { now } => now as int,
            DownloadEvent::Length { now, .. } => now as int,
            _ => last_time(events.drop_last()),
        }
    }
}

/// How far along a stage of a download is.
spec fn position(stage: Stage) -> int {
    match stage {
        Stage::Inspecting => 0,
        Stage::LoadingExisting => 1,
        Stage::FindingDirectory => 0,
        Stage::CreatingDirectory => 1,
        Stage::ReadingEndpoint => 2,
        Stage::Sizing(Part::Model) => 3,
        Stage::Sizing(Part::Tokenizer) => 4,
        Stage::Requesting(Part::Model) => 5,
        Stage::Creating(Part::Model) => 6,
        Stage::Receiving(Part::Model)
        | Stage::Writing(Part::Model, _)
        | Stage::Reporting(Part::Model) => 7,
        Stage::Flushing(Part::Model) => 8,
        Stage::Requesting(Part::Tokenizer) => 9,
        Stage::Creating(Part::Tokenizer) => 10,
        Stage::Receiving(Part::Tokenizer)
        | Stage::Writing(Part::Tokenizer, _)
        | Stage::Reporting(Part::Tokenizer) => 11,
        Stage::Flushing(Part::Tokenizer) => 12,
        Stage::Renaming(Part::Model) => 13,
        Stage::Renaming(Part::Tokenizer) => 14,
        Stage::LockingPipeline => 15,
        Stage::Initializing => 16,
        Stage::Announcing => 17,
        Stage::Ended => 18,
    }
}

/// Whether a state belongs to a download that fetches the files.
spec fn fetching(d: DownloadView) -> bool {
    !(d.stage is Inspecting) && !(d.stage is LoadingExisting)
}

proof fn lemma_one_step(d: DownloadView, e: DownloadEvent<Seq<char>>)
    requires
        fetching(d),
        accepts(d, e),
    ensures
        fetching(next(d, e)),
        about_a_chunk(e) ==> position(next(d, e).stage) == position(d.stage) && (position(d.stage)
            == 7 || position(d.stage) == 11),
        !about_a_chunk(e) && went_well(e) ==> position(next(d, e).stage) == position(d.stage) + 1
            && (next(d, e).stage is Ended ==> next(d, e).result is Ok),
        !went_well(e) ==> next(d, e).stage is Ended && next(d, e).result is Err,
        position(d.stage) < 18,
{
}

proof fn lemma_forward(
    dirs: Directories,
    disk: Seq<Location>,
    events: Seq<DownloadEvent<Seq<char>>>,
)
    requires
        !on_demand_files_found(dirs, disk),
        accepted(beginning(dirs, disk), events),
    ensures
        fetching(after(beginning(dirs, disk), events)),
        smooth(events) ==> position(after(beginning(dirs, disk), events).stage) == steps(events),
        smooth(events) && after(beginning(dirs, disk), events).stage is Ended ==> after(
            beginning(dirs, disk),
            events,
        ).result is Ok,
        !smooth(events) ==> after(beginning(dirs, disk), events).stage is Ended && after(
            beginning(dirs, disk),
            events,
        ).result is Err,
    decreases events.len(),
{
    law_ready_means_found(dirs, disk);
    if events.len() > 0 {
        let before = events.drop_last();
        lemma_forward(dirs, disk, before);
        lemma_one_step(after(beginning(dirs, disk), before), events.last());
        if smooth(before) {
            assert(smooth(events) <==> went_well(events.last())) by {
                if went_well(events.last()) {
                    assert forall|i: int| 0 <= i < events.len() implies went_well(
                        #[trigger] events[i],
                    ) by {
                        if i < before.len() {
                            assert(before[i] == events[i]);
                        }
                    }
                }
                if smooth(events) {
                    assert(went_well(events[events.len() - 1]));
                }
            }
        }
    }
}

/// What is known of a run before its first chunk.
proof fn lemma_first_events(
    dirs: Directories,
    disk: Seq<Location>,
    events: Seq<DownloadEvent<Seq<char>>>,
)
    requires
        !on_demand_files_found(dirs, disk),
        accepted(beginning(dirs, disk), events),
    ensures
        ({
            let d = after(beginning(dirs, disk), events);
            &&& events.len() < 6 && !(d.stage is Ended) ==> position(d.stage) == events.len()
            &&& events.len() >= 6 && !(d.stage is Ended) ==> position(d.stage) >= 6
            &&& d.stage is Ended ==> events.len() > 0
            &&& events.len() >= 3 ==> d.endpoint == server(events)
            &&& events.len() >= 4 ==> d.model_length == told(events[3], 597_990_265)
            &&& events.len() >= 5 ==> d.total_size == total_told(events) && d.last_report
                == last_time(events)
        }),
    decreases events.len(),
{
    law_ready_means_found(dirs, disk);
    if events.len() > 0 {
        let before = events.drop_last();
        lemma_first_events(dirs, disk, before);
        lemma_forward(dirs, disk, before);
        lemma_one_step(after(beginning(dirs, disk), before), events.last());
    }
}

/// Where nothing fails, a download does these things in this order and nothing else, and
/// then ends well: it finds and creates the directory, reads which server to use, asks for
/// the size of the model and of the tokenizer, requests the model, creates its temporary
/// file, receives it and flushes it, does the same with the tokenizer, moves the model and
/// then the tokenizer into place, locks the pipeline, loads the model and announces it.
/// Chunks change neither the file nor the order, however many come.
pub proof fn law_smooth_downloads_go_in_order(
    dirs: Directories,
    disk: Seq<Location>,
    events: Seq<DownloadEvent<Seq<char>>>,
)
    requires
        !on_demand_files_found(dirs, disk),
        accepted(beginning(dirs, disk), events),
        smooth(events),
    ensures
        ({
            let action = asked(after(beginning(dirs, disk), events));
            let n = steps(events);
            &&& 0 <= n <= 18
            &&& n == 0 ==> action is FindLocalDirectory
            &&& n == 1 ==> action is CreateDirectory
            &&& n == 2 ==> action is ReadEndpoint
            &&& n == 3 ==> action == DownloadAction::AskLength(server(events) + model_path())
            &&& n == 4 ==> action == DownloadAction::AskLength(server(events) + tokenizer_path())
            &&& n == 5 ==> action == DownloadAction::Request(server(events) + model_path())
            &&& n == 6 ==> action == DownloadAction::<Seq<char>>::CreateFile(
                local(Asset::PartialModel),
            )
            &&& n == 7 || n == 11 ==> {
                let last = events.last();
                &&& last is Chunk ==> action is WriteChunk
                &&& last is Written ==> action is NextChunk || action is Report
                &&& !(last is Chunk) && !(last is Written) ==> action is NextChunk
            }
            &&& n == 8 || n == 12 ==> action is Flush
            &&& n == 9 ==> action == DownloadAction::Request(server(events) + tokenizer_path())
            &&& n == 10 ==> action == DownloadAction::<Seq<char>>::CreateFile(
                local(Asset::PartialTokenizer),
            )
            &&& n == 13 ==> action == (DownloadAction::<Seq<char>>::Rename {
                from: local(Asset::PartialModel),
                to: local(Asset::QuantizedModel),
            })
            &&& n == 14 ==> action == (DownloadAction::<Seq<char>>::Rename {
                from: local(Asset::PartialTokenizer),
                to: local(Asset::QuantizedTokenizer),
            })
            &&& n == 15 ==> action is LockPipeline
            &&& n == 16 ==> action is LoadModel
            &&& n == 17 ==> action is Announce
            &&& n == 18 ==> action == DownloadAction::<Seq<char>>::Finish(Ok(()))
        }),
{
    lemma_forward(dirs, disk, events);
    lemma_first_events(dirs, disk, events);
    lemma_steps_bound(events);
    if events.len() > 0 {
        lemma_forward(dirs, disk, events.drop_last());
    }
}

proof fn lemma_steps_bound(events: Seq<DownloadEvent<Seq<char>>>)
    ensures
        0 <= steps(events) <= events.len(),
    decreases events.len(),
{
    if events.len() > 0 {
        lemma_steps_bound(events.drop_last());
    }
}

/// A download ends badly exactly where something failed, and then at once.
pub proof fn law_downloads_end_badly_on_failure_alone(
    dirs: Directories,
    disk: Seq<Location>,
    events: Seq<DownloadEvent<Seq<char>>>,
)
    requires
        !on_demand_files_found(dirs, disk),
        accepted(beginning(dirs, disk), events),
    ensures
        (asked(after(beginning(dirs, disk), events)) matches DownloadAction::Finish(Err(_)))
            <==> !smooth(events),
        smooth(events.drop_last()) || events.len() == 0,
{
    lemma_forward(dirs, disk, events);
    if events.len() > 0 {
        lemma_forward(dirs, disk, events.drop_last());
    }
}

proof fn lemma_prefix(d: DownloadView, events: Seq<DownloadEvent<Seq<char>>>, i: int)
    requires
        accepted(d, events),
        0 <= i <= events.len(),
    ensures
        accepted(d, events.take(i)),
    decreases events.len(),
{
    if i < events.len() {
        lemma_prefix(d, events.drop_last(), i);
        assert(events.drop_last().take(i) =~= events.take(i));
    } else {
        assert(events.take(i) =~= events);
    }
}

proof fn lemma_positions_rise(
    dirs: Directories,
    disk: Seq<Location>,
    events: Seq<DownloadEvent<Seq<char>>>,
    i: int,
    j: int,
)
    requires
        !on_demand_files_found(dirs, disk),
        accepted(beginning(dirs, disk), events),
        0 <= i < j <= events.len(),
    ensures
        ({
            let d = beginning(dirs, disk);
            let first = position(after(d, events.take(i)).stage);
            let second = position(after(d, events.take(j)).stage);
            &&& first <= second
            &&& first != 7 && first != 11 ==> first < second
            &&& !about_a_chunk(events[i]) ==> first < second
        }),
    decreases j,
{
    let d = beginning(dirs, disk);
    lemma_prefix(d, events, j);
    lemma_prefix(d, events, j - 1);
    let upto = events.take(j);
    assert(upto.drop_last() =~= events.take(j - 1));
    assert(upto.last() == events[j - 1]);
    lemma_forward(dirs, disk, events.take(j - 1));
    lemma_one_step(after(d, events.take(j - 1)), events[j - 1]);
    if i < j - 1 {
        lemma_positions_rise(dirs, disk, events, i, j - 1);
    }
}

/// Each of the two files is requested at most once, whatever happens: of two requests the
/// first is for the model and the second for the tokenizer, on the same server.
pub proof fn law_each_file_is_requested_at_most_once(
    dirs: Directories,
    disk: Seq<Location>,
    events: Seq<DownloadEvent<Seq<char>>>,
    i: int,
    j: int,
)
    requires
        !on_demand_files_found(dirs, disk),
        accepted(beginning(dirs, disk), events),
        0 <= i < j <= events.len(),
        asked(after(beginning(dirs, disk), events.take(i))) is Request,
        asked(after(beginning(dirs, disk), events.take(j))) is Request,
    ensures
        asked(after(beginning(dirs, disk), events.take(i))) == DownloadAction::Request(
            server(events) + model_path(),
        ),
        asked(after(beginning(dirs, disk), events.take(j))) == DownloadAction::Request(
            server(events) + tokenizer_path(),
        ),
        server(events) + model_path() != server(events) + tokenizer_path(),
{
    let d = beginning(dirs, disk);
    lemma_positions_rise(dirs, disk, events, i, j);
    lemma_prefix(d, events, i);
    lemma_prefix(d, events, j);
    lemma_first_events(dirs, disk, events.take(i));
    lemma_first_events(dirs, disk, events.take(j));
    reveal_strlit(
        "/onnx-community/Qwen3-Embedding-0.6B-ONNX/resolve/main/onnx/model_quantized.onnx",
    );
    reveal_strlit("/onnx-community/Qwen3-Embedding-0.6B-ONNX/resolve/main/tokenizer.json");
    assert((server(events) + model_path()).len() != (server(events) + tokenizer_path()).len());
}

/// After the first file is flushed the tokenizer is requested; after the second one the
/// model is moved into place. So the end of the tokenizer is never taken for that of the
/// model, whatever chunks it came in.
pub proof fn law_the_second_flush_leads_to_the_moves(
    dirs: Directories,
    disk: Seq<Location>,
    events: Seq<DownloadEvent<Seq<char>>>,
)
    requires
        !on_demand_files_found(dirs, disk),
        accepted(beginning(dirs, disk), events),
        events.len() > 0,
        done(beginning(dirs, disk), events, events.len() - 1, DownloadAction::Flush),
    ensures
        ({
            let d = beginning(dirs, disk);
            let earlier = exists|i: int|
                i < events.len() - 1 && #[trigger] done(d, events, i, DownloadAction::Flush);
            &&& earlier ==> asked(after(d, events)) == (DownloadAction::<Seq<char>>::Rename {
                from: local(Asset::PartialModel),
                to: local(Asset::QuantizedModel),
            })
            &&& !earlier ==> asked(after(d, events)) == DownloadAction::Request(
                server(events) + tokenizer_path(),
            )
        }),
{
    let d = beginning(dirs, disk);
    let last = events.len() - 1;
    let before = events.drop_last();
    assert(events.take(last) =~= before);
    lemma_first_events(dirs, disk, events);
    lemma_first_events(dirs, disk, before);
    let stage = after(d, before).stage;
    assert(position(stage) == 8 || position(stage) == 12);
    if exists|i: int| i < last && #[trigger] done(d, events, i, DownloadAction::Flush) {
        let i = choose|i: int| i < last && #[trigger] done(d, events, i, DownloadAction::Flush);
        lemma_positions_rise(dirs, disk, events, i, last);
    } else if position(stage) == 12 {
        lemma_model_was_flushed(dirs, disk, before);
        let i = choose|i: int| #[trigger] done(d, before, i, DownloadAction::Flush);
        assert(before.take(i) =~= events.take(i));
        assert(done(d, events, i, DownloadAction::Flush));
        assert(i < last);
        assert(false);
    }
}

proof fn lemma_model_was_flushed(
    dirs: Directories,
    disk: Seq<Location>,
    events: Seq<DownloadEvent<Seq<char>>>,
)
    requires
        !on_demand_files_found(dirs, disk),
        accepted(beginning(dirs, disk), events),
        9 <= position(after(beginning(dirs, disk), events).stage) < 18,
    ensures
        exists|i: int| #[trigger]
            done(beginning(dirs, disk), events, i, DownloadAction::Flush),
    decreases events.len(),
{
    let d = beginning(dirs, disk);
    law_ready_means_found(dirs, disk);
    let before = events.drop_last();
    let last = events.len() - 1;
    assert(events.take(last) =~= before);
    lemma_forward(dirs, disk, before);
    lemma_one_step(after(d, before), events.last());
    if position(after(d, before).stage) >= 9 {
        lemma_model_was_flushed(dirs, disk, before);
        let i = choose|i: int| #[trigger] done(d, before, i, DownloadAction::Flush);
        assert(before.take(i) =~= events.take(i));
        assert(done(d, events, i, DownloadAction::Flush));
    } else {
        assert(done(d, events, last, DownloadAction::Flush));
    }
}

/// A chunk that comes is written; when it is written, or progress is reported, the next
/// chunk of the same file is waited for. None of these ends the file or begins another.
pub proof fn law_chunks_stay_with_their_file(
    d: DownloadView,
    e: DownloadEvent<Seq<char>>,
    part: Part,
)
    requires
        accepts(d, e),
        about_a_chunk(e),
        d.stage == Stage::Receiving(part) || d.stage == Stage::Reporting(part) || (
        d.stage matches Stage::Writing(p, _) && p == part),
    ensures
        ({
            let after_it = next(d, e).stage;
            &&& e matches DownloadEvent::Chunk { length } ==> after_it == Stage::Writing(
                part,
                length,
            )
            &&& e is Written ==> after_it == Stage::Receiving(part) || after_it
                == Stage::Reporting(part)
            &&& e is Reported ==> after_it == Stage::Receiving(part)
        }),
{
}

/// A report of progress tells how many bytes of both files came, and how many there are by
/// what the server told.
pub proof fn law_reports_tell_bytes_and_total(
    dirs: Directories,
    disk: Seq<Location>,
    events: Seq<DownloadEvent<Seq<char>>>,
)
    requires
        !on_demand_files_found(dirs, disk),
        accepted(beginning(dirs, disk), events),
    ensures
        asked(after(beginning(dirs, disk), events)) matches DownloadAction::Report {
            downloaded,
            total,
        } ==> downloaded == bytes_received(events) && total == total_told(events),
{
    lemma_first_events(dirs, disk, events);
    if asked(after(beginning(dirs, disk), events)) is Report {
        law_progress_counts_every_byte(dirs, disk, events);
    }
}

/// After a chunk was written, progress is reported exactly when more than 150 milliseconds
/// have passed since the last report, or since the sizes were told, or when all the bytes
/// that were told of have come; else the next chunk is waited for.
pub proof fn law_when_progress_is_reported(
    dirs: Directories,
    disk: Seq<Location>,
    events: Seq<DownloadEvent<Seq<char>>>,
)
    requires
        !on_demand_files_found(dirs, disk),
        accepted(beginning(dirs, disk), events),
        events.len() > 0,
        events.last() is Written,
    ensures
        ({
            let action = asked(after(beginning(dirs, disk), events));
            let now = events.last()->Written_now;
            let due = now - last_time(events.drop_last()) > 150_000_000 || bytes_received(events)
                == total_told(events);
            &&& due ==> action is Report
            &&& !due ==> action is NextChunk
        }),
{
    let d = beginning(dirs, disk);
    let before = events.drop_last();
    lemma_first_events(dirs, disk, before);
    lemma_first_events(dirs, disk, events);
    lemma_forward(dirs, disk, before);
    law_progress_counts_every_byte(dirs, disk, before);
}

/// Each failure is reported in its own words, with the whole reason behind them.
pub proof fn law_failures_are_worded(d: DownloadView, reason: Seq<char>)
    requires
        accepts(d, DownloadEvent::Failed(reason)),
    ensures
        ({
            let end = asked(next(d, DownloadEvent::Failed(reason)));
            let says = |words: Seq<char>| end == DownloadAction::Finish(Err::<(), Seq<char>>(words));
            &&& d.stage is Inspecting || d.stage is LoadingExisting || d.stage is LockingPipeline
                ==> says(reason)
            &&& d.stage is FindingDirectory ==> says("Failed to get local data dir: "@ + reason)
            &&& d.stage is CreatingDirectory ==> says(
                "Failed to create models directory: "@ + reason,
            )
            &&& d.stage == Stage::Requesting(Part::Model) ==> says(
                "Failed to start download from "@ + (d.endpoint + model_path()) + ": "@ + reason,
            )
            &&& d.stage == Stage::Requesting(Part::Tokenizer) ==> says(
                "Failed to start download from "@ + (d.endpoint + tokenizer_path()) + ": "@
                    + reason,
            )
            &&& d.stage is Creating ==> says("Failed to create temp file: "@ + reason)
            &&& d.stage is Receiving ==> says("Error during download: "@ + reason)
            &&& d.stage is Writing ==> says("Failed to write to file: "@ + reason)
            &&& d.stage is Flushing ==> says("Failed to flush file: "@ + reason)
            &&& d.stage == Stage::Renaming(Part::Model) ==> says(
                "Failed to rename temp model file: "@ + reason,
            )
            &&& d.stage == Stage::Renaming(Part::Tokenizer) ==> says(
                "Failed to rename temp tokenizer file: "@ + reason,
            )
            &&& d.stage is Initializing ==> says(
                "Failed to initialize model after download: "@ + reason,
            )
        }),
{
}

/// A response counts as a success exactly from 200 to 299, and then the file is created;
/// any other ends the download with words that name the address, the code and its reason.
pub proof fn law_responses(d: DownloadView, part: Part, code: u16)
    requires
        d.stage == Stage::Requesting(part),
        accepts(d, DownloadEvent::Status(code)),
    ensures
        ({
            let action = asked(next(d, DownloadEvent::Status(code)));
            let url = d.endpoint + (if part is Model {
                model_path()
            } else {
                tokenizer_path()
            });
            let file = if part is Model {
                local(Asset::PartialModel)
            } else {
                local(Asset::PartialTokenizer)
            };
            &&& 200 <= code <= 299 ==> action == DownloadAction::<Seq<char>>::CreateFile(file)
            &&& !(200 <= code <= 299) ==> action == DownloadAction::Finish(
                Err::<(), Seq<char>>(
                    "Download from "@ + url + " failed with status: "@ + (decimal(code as int)
                        + seq![' '] + status_reason(code)),
                ),
            )
        }),
{
}

/// What was asked tells which answers are accepted, and no others are: how it went where it
/// can only go well or fail, any server, any size or count that fits in 64 bits, any status
/// code of three digits, any chunk or the end. Once it has ended there is no answer.
pub proof fn law_answers_that_are_accepted(d: DownloadView, e: DownloadEvent<Seq<char>>)
    ensures
        ({
            let action = asked(d);
            &&& action is LoadModel || action is FindLocalDirectory || action is CreateDirectory
                || action is CreateFile || action is Flush || action is Rename ==> (accepts(d, e)
                <==> e is Succeeded || e is Failed)
            &&& action is LockPipeline ==> (accepts(d, e) <==> e is Locked || e is Failed)
            &&& action is ReadEndpoint ==> (accepts(d, e) <==> e is Endpoint)
            &&& action is AskLength ==> (accepts(d, e) <==> e is Length && (d.stage
                == Stage::Sizing(Part::Model) || d.model_length + told(e, 11_423_705)
                <= 0xffff_ffff_ffff_ffff))
            &&& action is Request ==> (accepts(d, e) <==> e is Failed || (
            e matches DownloadEvent::Status(code) && 100 <= code <= 999))
            &&& action is NextChunk ==> (accepts(d, e) <==> e is Chunk || e is StreamEnded || e
                is Failed)
            &&& action is WriteChunk ==> (accepts(d, e) <==> e is Failed || (e is Written
                && d.downloaded + bytes_pending(d.stage) <= 0xffff_ffff_ffff_ffff))
            &&& action is Report ==> (accepts(d, e) <==> e is Reported)
            &&& action is Announce ==> (accepts(d, e) <==> e is Succeeded)
            &&& action is Finish ==> !accepts(d, e)
        }),
{
}

/// A download begins with nothing counted. Where the files are there it looks at the
/// pipeline: where that has a model it ends well at once; where not, it loads the model
/// and ends as that goes. Where the files are not there it sets out to fetch them.
pub proof fn law_how_downloads_begin(
    dirs: Directories,
    disk: Seq<Location>,
    reason: Seq<char>,
)
    ensures
        ({
            let d = beginning(dirs, disk);
            let without = next(d, DownloadEvent::Locked { has_semantic: false });
            &&& d.downloaded == 0
            &&& asked(d) is FindLocalDirectory <==> !on_demand_files_found(dirs, disk)
            &&& asked(d) is LockPipeline <==> on_demand_files_found(dirs, disk)
            &&& on_demand_files_found(dirs, disk) ==> {
                &&& asked(next(d, DownloadEvent::Locked { has_semantic: true })) == (
                DownloadAction::<Seq<char>>::Finish(Ok(())))
                &&& asked(next(d, DownloadEvent::Failed(reason))) == DownloadAction::Finish(
                    Err::<(), Seq<char>>(reason),
                )
                &&& asked(without) is LoadModel
                &&& asked(next(without, DownloadEvent::Succeeded)) == (
                DownloadAction::<Seq<char>>::Finish(Ok(())))
                &&& asked(next(without, DownloadEvent::Failed(reason))) == DownloadAction::Finish(
                    Err::<(), Seq<char>>(reason),
                )
            }
        }),
{
    law_ready_means_found(dirs, disk);
}

/// The contents of events and actions keep which they are, and every value in them.
pub proof fn law_views_keep_everything(
    e: DownloadEvent<String>,
    a: DownloadAction<String>,
)
    ensures
        e is Succeeded <==> event_view(e) is Succeeded,
        e is StreamEnded <==> event_view(e) is StreamEnded,
        e matches DownloadEvent::Failed(s) ==> event_view(e) == DownloadEvent::Failed(s@),
        e matches DownloadEvent::Locked { has_semantic } ==> event_view(e) == (
        DownloadEvent::<Seq<char>>::Locked { has_semantic }),
        e matches DownloadEvent::Endpoint(Some(s)) ==> event_view(e) == DownloadEvent::Endpoint(
            Some(s@),
        ),
        e matches DownloadEvent::Endpoint(None) ==> event_view(e) == (
        DownloadEvent::<Seq<char>>::Endpoint(None)),
        e matches DownloadEvent::Length { reported, now } ==> event_view(e) == (
        DownloadEvent::<Seq<char>>::Length { reported, now }),
        e matches DownloadEvent::Status(code) ==> event_view(e) == (
        DownloadEvent::<Seq<char>>::Status(code)),
        e matches DownloadEvent::Chunk { length } ==> event_view(e) == (
        DownloadEvent::<Seq<char>>::Chunk { length }),
        e matches DownloadEvent::Written { now } ==> event_view(e) == (
        DownloadEvent::<Seq<char>>::Written { now }),
        e matches DownloadEvent::Reported { now } ==> event_view(e) == (
        DownloadEvent::<Seq<char>>::Reported { now }),
        a is LockPipeline <==> action_view(a) is LockPipeline,
        a is LoadModel <==> action_view(a) is LoadModel,
        a is FindLocalDirectory <==> action_view(a) is FindLocalDirectory,
        a is CreateDirectory <==> action_view(a) is CreateDirectory,
        a is ReadEndpoint <==> action_view(a) is ReadEndpoint,
        a is NextChunk <==> action_view(a) is NextChunk,
        a is WriteChunk <==> action_view(a) is WriteChunk,
        a is Flush <==> action_view(a) is Flush,
        a is Announce <==> action_view(a) is Announce,
        a matches DownloadAction::AskLength(s) ==> action_view(a) == DownloadAction::AskLength(
            s@,
        ),
        a matches DownloadAction::Request(s) ==> action_view(a) == DownloadAction::Request(s@),
        a matches DownloadAction::CreateFile(l) ==> action_view(a) == (
        DownloadAction::<Seq<char>>::CreateFile(l)),
        a matches DownloadAction::Report { downloaded, total } ==> action_view(a) == (
        DownloadAction::<Seq<char>>::Report { downloaded, total }),
        a matches DownloadAction::Rename { from, to } ==> action_view(a) == (
        DownloadAction::<Seq<char>>::Rename { from, to }),
        a matches DownloadAction::Finish(Ok(_)) ==> action_view(a) == (
        DownloadAction::<Seq<char>>::Finish(Ok(()))),
        a matches DownloadAction::Finish(Err(s)) ==> action_view(a) == DownloadAction::Finish(
            Err::<(), Seq<char>>(s@),
        ),
{
}

} // verus!
