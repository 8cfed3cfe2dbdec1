//! Downloading the embedding model and its tokenizer.
//!
//! A download is a state machine. It says what is to be done next; the application
//! does it and reports how it went. Both files are fetched one after the other into
//! temporary files, progress is reported now and then, and only when both are complete
//! are they moved to where the model is looked for, and loaded.
use vstd::prelude::*;

use crate::assets::{check_qwen_model, model_ready, Asset, Directories, Location, Root};
use crate::http::{is_status_code, status_is_success, status_text, status_words};
use crate::text::joined;

verus! {

/// The server from which the model is fetched, where none is configured.
pub const DEFAULT_ENDPOINT: &'static str = "https://huggingface.co";

/// The size of the model, in bytes, where the server does not tell it.
pub const DEFAULT_MODEL_LENGTH: u64 = 597_990_265;

/// The size of the tokenizer, in bytes, where the server does not tell it.
pub const DEFAULT_TOKENIZER_LENGTH: u64 = 11_423_705;

/// Progress is reported once more than this many nanoseconds have passed since it
/// was last reported.
pub const REPORT_INTERVAL: u128 = 150_000_000;

/// One of the two files.
#[derive(Clone, Copy, Debug, PartialEq, Eq, Structural)]
pub enum Part {
    Model,
    Tokenizer,
}

/// What a download is waiting for.
#[derive(Clone, Copy, Debug, PartialEq, Eq, Structural)]
pub enum Stage {
    /// The files are there already: the state of the pipeline.
    Inspecting,
    /// The files are there already: the model being loaded.
    LoadingExisting,
    /// The local data directory.
    FindingDirectory,
    /// The directory for the files.
    CreatingDirectory,
    /// The configured server.
    ReadingEndpoint,
    /// The size of a file.
    Sizing(Part),
    /// The server's response.
    Requesting(Part),
    /// The temporary file being created.
    Creating(Part),
    /// The next chunk, or the end, of the file.
    Receiving(Part),
    /// A chunk of this many bytes being written.
    Writing(Part, u64),
    /// Progress being reported.
    Reporting(Part),
    /// The temporary file being flushed.
    Flushing(Part),
    /// The temporary file being moved into place.
    Renaming(Part),
    /// The pipeline, for the downloaded model.
    LockingPipeline,
    /// The downloaded model being loaded.
    Initializing,
    /// Completion being announced.
    Announcing,
    /// Nothing more.
    Ended,
}

/// What the application is to do next.
#[derive(Debug)]
pub enum DownloadAction<S> {
    LockPipeline,
    LoadModel,
    FindLocalDirectory,
    CreateDirectory,
    ReadEndpoint,
    AskLength(S),
    Request(S),
    CreateFile(Location),
    NextChunk,
    WriteChunk,
    Report { downloaded: u64, total: u64 },
    Flush,
    Rename { from: Location, to: Location },
    Announce,
    Finish(Result<(), S>),
}

/// How it went. Times are in nanoseconds, counted from a fixed moment.
#[derive(Debug)]
pub enum DownloadEvent<S> {
    Succeeded,
    Failed(S),
    /// The pipeline was locked.
    Locked { has_semantic: bool },
    /// The server that is configured, if one is.
    Endpoint(Option<S>),
    /// The size that the server told, if it did.
    Length { reported: Option<u64>, now: u128 },
    /// The status code of the response.
    Status(u16),
    /// A chunk of this many bytes came.
    Chunk { length: u64 },
    StreamEnded,
    /// The chunk was written.
    Written { now: u128 },
    /// Progress was reported.
    Reported { now: u128 },
}

/// A download.
#[derive(Debug)]
pub struct Download {
    stage: Stage,
    endpoint: String,
    model_length: u64,
    total_size: u64,
    downloaded: u64,
    last_report: u128,
    result: Result<(), String>,
}

/// The state of a [`Download`].
#[verifier::ext_equal]
pub struct DownloadView {
    /// What it is waiting for.
    pub stage: Stage,
    /// The server.
    pub endpoint: Seq<char>,
    /// The size of the model.
    pub model_length: u64,
    /// The size of both files together.
    pub total_size: u64,
    /// How many bytes of both files were written so far.
    pub downloaded: u64,
    /// When progress was last reported, or counting began.
    pub last_report: u128,
    /// How the download ended, once it has.
    pub result: Result<(), Seq<char>>,
}

/// The contents of a result with an error text.
pub open spec fn result_view(r: Result<(), String>) -> Result<(), Seq<char>> {
    match r {
        Ok(()) => Ok(()),
        Err(e) => Err(e@),
    }
}

impl View for Download {
    type V = DownloadView;

    closed spec fn view(&self) -> DownloadView {
        DownloadView {
            stage: self.stage,
            endpoint: self.endpoint@,
            model_length: self.model_length,
            total_size: self.total_size,
            downloaded: self.downloaded,
            last_report: self.last_report,
            result: result_view(self.result),
        }
    }
}

/// The contents of an event.
pub open spec fn event_view(e: DownloadEvent<String>) -> DownloadEvent<Seq<char>> {
    match e {
        DownloadEvent::Succeeded => DownloadEvent::Succeeded,
        DownloadEvent::Failed(e) => DownloadEvent::Failed(e@),
        DownloadEvent::Locked { has_semantic } => DownloadEvent::Locked { has_semantic },
        DownloadEvent::Endpoint(Some(s)) => DownloadEvent::Endpoint(Some(s@)),
        DownloadEvent::Endpoint(None) => DownloadEvent::Endpoint(None),
        DownloadEvent::Length { reported, now } => DownloadEvent::Length { reported, now },
        DownloadEvent::Status(code) => DownloadEvent::Status(code),
        DownloadEvent::Chunk { length } => DownloadEvent::Chunk { length },
        DownloadEvent::StreamEnded => DownloadEvent::StreamEnded,
        DownloadEvent::Written { now } => DownloadEvent::Written { now },
        DownloadEvent::Reported { now } => DownloadEvent::Reported { now },
    }
}

/// The contents of an action.
pub open spec fn action_view(a: DownloadAction<String>) -> DownloadAction<Seq<char>> {
    match a {
        DownloadAction::LockPipeline => DownloadAction::LockPipeline,
        DownloadAction::LoadModel => DownloadAction::LoadModel,
        DownloadAction::FindLocalDirectory => DownloadAction::FindLocalDirectory,
        DownloadAction::CreateDirectory => DownloadAction::CreateDirectory,
        DownloadAction::ReadEndpoint => DownloadAction::ReadEndpoint,
        DownloadAction::AskLength(url) => DownloadAction::AskLength(url@),
        DownloadAction::Request(url) => DownloadAction::Request(url@),
        DownloadAction::CreateFile(l) => DownloadAction::CreateFile(l),
        DownloadAction::NextChunk => DownloadAction::NextChunk,
        DownloadAction::WriteChunk => DownloadAction::WriteChunk,
        DownloadAction::Report { downloaded, total } => DownloadAction::Report {
            downloaded,
            total,
        },
        DownloadAction::Flush => DownloadAction::Flush,
        DownloadAction::Rename { from, to } => DownloadAction::Rename { from, to },
        DownloadAction::Announce => DownloadAction::Announce,
        DownloadAction::Finish(r) => DownloadAction::Finish(result_view(r)),
    }
}

/// The address of a file on the server.
pub open spec fn part_url(endpoint: Seq<char>, part: Part) -> Seq<char> {
    match part {
        Part::Model => endpoint
            + "/onnx-community/Qwen3-Embedding-0.6B-ONNX/resolve/main/onnx/model_quantized.onnx"@,
        Part::Tokenizer => endpoint
            + "/onnx-community/Qwen3-Embedding-0.6B-ONNX/resolve/main/tokenizer.json"@,
    }
}

/// Where a file is kept while it is being downloaded.
pub open spec fn partial_location(part: Part) -> Location {
    match part {
        Part::Model => Location { root: Root::LocalData, asset: Asset::PartialModel },
        Part::Tokenizer => Location { root: Root::LocalData, asset: Asset::PartialTokenizer },
    }
}

/// Where a file belongs once it is complete.
pub open spec fn final_location(part: Part) -> Location {
    match part {
        Part::Model => Location { root: Root::LocalData, asset: Asset::QuantizedModel },
        Part::Tokenizer => Location { root: Root::LocalData, asset: Asset::QuantizedTokenizer },
    }
}

/// What the application is asked to do in a given state.
pub open spec fn asked(d: DownloadView) -> DownloadAction<Seq<char>> {
    match d.stage {
        Stage::Inspecting => DownloadAction::LockPipeline,
        Stage::LoadingExisting => DownloadAction::LoadModel,
        Stage::FindingDirectory => DownloadAction::FindLocalDirectory,
        Stage::CreatingDirectory => DownloadAction::CreateDirectory,
        Stage::ReadingEndpoint => DownloadAction::ReadEndpoint,
        Stage::Sizing(part) => DownloadAction::AskLength(part_url(d.endpoint, part)),
        Stage::Requesting(part) => DownloadAction::Request(part_url(d.endpoint, part)),
        Stage::Creating(part) => DownloadAction::CreateFile(partial_location(part)),
        Stage::Receiving(_) => DownloadAction::NextChunk,
        Stage::Writing(_, _) => DownloadAction::WriteChunk,
        Stage::Reporting(_) => DownloadAction::Report {
            downloaded: d.downloaded,
            total: d.total_size,
        },
        Stage::Flushing(_) => DownloadAction::Flush,
        Stage::Renaming(part) => DownloadAction::Rename {
            from: partial_location(part),
            to: final_location(part),
        },
        Stage::LockingPipeline => DownloadAction::LockPipeline,
        Stage::Initializing => DownloadAction::LoadModel,
        Stage::Announcing => DownloadAction::Announce,
        Stage::Ended => DownloadAction::Finish(d.result),
    }
}

/// The size of a file: what the server told, else what it is known to be.
pub open spec fn part_length(part: Part, reported: Option<u64>) -> u64 {
    match (reported, part) {
        (Some(n), _) => n,
        (None, Part::Model) => DEFAULT_MODEL_LENGTH,
        (None, Part::Tokenizer) => DEFAULT_TOKENIZER_LENGTH,
    }
}

/// Whether the event is an answer to what was asked. Sizes and counts have to fit in
/// 64 bits.
pub open spec fn accepts(d: DownloadView, e: DownloadEvent<Seq<char>>) -> bool {
    match d.stage {
        Stage::Inspecting | Stage::LockingPipeline => e is Locked || e is Failed,
        Stage::ReadingEndpoint => e is Endpoint,
        Stage::Sizing(part) => e matches DownloadEvent::Length { reported, .. } && (part
            is Tokenizer ==> d.model_length + part_length(part, reported) <= u64::MAX),
        Stage::Requesting(_) => e is Failed || (e matches DownloadEvent::Status(code)
            && is_status_code(code)),
        Stage::Receiving(_) => e is Chunk || e is StreamEnded || e is Failed,
        Stage::Writing(_, length) => e is Failed || (e is Written && d.downloaded + length
            <= u64::MAX),
        Stage::Reporting(_) => e is Reported,
        Stage::Announcing => e is Succeeded,
        Stage::Ended => false,
        _ => e is Succeeded || e is Failed,
    }
}

/// The words in which the failure of what was asked is reported, given the reason.
pub open spec fn failure_words(d: DownloadView, reason: Seq<char>) -> Seq<char> {
    match d.stage {
        Stage::FindingDirectory => "Failed to get local data dir: "@ + reason,
        Stage::CreatingDirectory => "Failed to create models directory: "@ + reason,
        Stage::Requesting(part) => "Failed to start download from "@ + part_url(d.endpoint, part)
            + ": "@ + reason,
        Stage::Creating(_) => "Failed to create temp file: "@ + reason,
        Stage::Receiving(_) => "Error during download: "@ + reason,
        Stage::Writing(_, _) => "Failed to write to file: "@ + reason,
        Stage::Flushing(_) => "Failed to flush file: "@ + reason,
        Stage::Renaming(Part::Model) => "Failed to rename temp model file: "@ + reason,
        Stage::Renaming(Part::Tokenizer) => "Failed to rename temp tokenizer file: "@ + reason,
        Stage::Initializing => "Failed to initialize model after download: "@ + reason,
        _ => reason,
    }
}

/// The words in which a response that is no success is reported, given the address
/// and the printed status.
pub open spec fn status_failure_words(url: Seq<char>, status: Seq<char>) -> Seq<char> {
    "Download from "@ + url + " failed with status: "@ + status
}

/// The state, waiting for something else.
pub open spec fn waiting_for(d: DownloadView, stage: Stage) -> DownloadView {
    DownloadView { stage, ..d }
}

/// The state, ended.
pub open spec fn ended(d: DownloadView, result: Result<(), Seq<char>>) -> DownloadView {
    DownloadView { stage: Stage::Ended, result, ..d }
}

/// Whether progress is due: more than the interval has passed since it was last
/// reported, or everything has come.
pub open spec fn report_due(d: DownloadView, downloaded: int, now: u128) -> bool {
    now - d.last_report > REPORT_INTERVAL || downloaded == d.total_size
}

/// The state after an answer to what was asked.
pub open spec fn next(d: DownloadView, e: DownloadEvent<Seq<char>>) -> DownloadView {
    match (d.stage, e) {
        (_, DownloadEvent::Failed(reason)) => ended(d, Err(failure_words(d, reason))),
        (Stage::Inspecting, DownloadEvent::Locked { has_semantic }) => if has_semantic {
            ended(d, Ok(()))
        } else {
            waiting_for(d, Stage::LoadingExisting)
        },
        (Stage::LoadingExisting, _) => ended(d, Ok(())),
        (Stage::FindingDirectory, _) => waiting_for(d, Stage::CreatingDirectory),
        (Stage::CreatingDirectory, _) => waiting_for(d, Stage::ReadingEndpoint),
        (Stage::ReadingEndpoint, DownloadEvent::Endpoint(configured)) => DownloadView {
            stage: Stage::Sizing(Part::Model),
            endpoint: match configured {
                Some(s) => s,
                None => DEFAULT_ENDPOINT@,
            },
            ..d
        },
        (Stage::Sizing(Part::Model), DownloadEvent::Length { reported, .. }) => DownloadView {
            stage: Stage::Sizing(Part::Tokenizer),
            model_length: part_length(Part::Model, reported),
            ..d
        },
        (Stage::Sizing(Part::Tokenizer), DownloadEvent::Length { reported, now }) => DownloadView {
            stage: Stage::Requesting(Part::Model),
            total_size: (d.model_length + part_length(Part::Tokenizer, reported)) as u64,
            last_report: now,
            ..d
        },
        (Stage::Requesting(part), DownloadEvent::Status(code)) => if 200 <= code <= 299 {
            waiting_for(d, Stage::Creating(part))
        } else {
            ended(
                d,
                Err(status_failure_words(part_url(d.endpoint, part), status_words(code))),
            )
        },
        (Stage::Creating(part), _) => waiting_for(d, Stage::Receiving(part)),
        (Stage::Receiving(part), DownloadEvent::Chunk { length }) => waiting_for(
            d,
            Stage::Writing(part, length),
        ),
        (Stage::Receiving(part), _) => waiting_for(d, Stage::Flushing(part)),
        (Stage::Writing(part, length), DownloadEvent::Written { now }) => DownloadView {
            stage: if report_due(d, d.downloaded + length, now) {
                Stage::Reporting(part)
            } else {
                Stage::Receiving(part)
            },
            downloaded: (d.downloaded + length) as u64,
            ..d
        },
        (Stage::Reporting(part), DownloadEvent::Reported { now }) => DownloadView {
            stage: Stage::Receiving(part),
            last_report: now,
            ..d
        },
        (Stage::Flushing(Part::Model), _) => waiting_for(d, Stage::Requesting(Part::Tokenizer)),
        (Stage::Flushing(Part::Tokenizer), _) => waiting_for(d, Stage::Renaming(Part::Model)),
        (Stage::Renaming(Part::Model), _) => waiting_for(d, Stage::Renaming(Part::Tokenizer)),
        (Stage::Renaming(Part::Tokenizer), _) => waiting_for(d, Stage::LockingPipeline),
        (Stage::LockingPipeline, _) => waiting_for(d, Stage::Initializing),
        (Stage::Initializing, _) => waiting_for(d, Stage::Announcing),
        (Stage::Announcing, _) => ended(d, Ok(())),
        _ => d,
    }
}

/// The state in which a download begins: it only loads the files where they are there
/// already, and fetches them where they are not.
pub open spec fn beginning(dirs: Directories, disk: Seq<Location>) -> DownloadView {
    DownloadView {
        stage: if model_ready(dirs, disk) {
            Stage::Inspecting
        } else {
            Stage::FindingDirectory
        },
        endpoint: Seq::empty(),
        model_length: 0,
        total_size: 0,
        downloaded: 0,
        last_report: 0,
        result: Ok(()),
    }
}

/// The directory, below the local data directory, that holds the downloaded files.
pub fn download_directory() -> (path: &'static str)
    ensures
        path@ == "models/qwen3-embedding-0.6b-int8"@,
{
    "models/qwen3-embedding-0.6b-int8"
}

/// Writes the address of a file on the server.
pub fn download_url(endpoint: &str, part: Part) -> (url: String)
    ensures
        url@ == part_url(endpoint@, part),
{
    match part {
        Part::Model => joined(
            endpoint,
            "/onnx-community/Qwen3-Embedding-0.6B-ONNX/resolve/main/onnx/model_quantized.onnx",
        ),
        Part::Tokenizer => joined(
            endpoint,
            "/onnx-community/Qwen3-Embedding-0.6B-ONNX/resolve/main/tokenizer.json",
        ),
    }
}

/// Writes down that a response was no success, given its printed status.
pub fn status_failure(url: &str, status: &str) -> (text: String)
    ensures
        text@ == status_failure_words(url@, status@),
{
    let mut text = joined("Download from ", url);
    text.append(" failed with status: ");
    text.append(status);
    text
}

fn length_of(part: Part, reported: Option<u64>) -> (n: u64)
    ensures
        n == part_length(part, reported),
{
    match reported {
        Some(n) => n,
        None => match part {
            Part::Model => DEFAULT_MODEL_LENGTH,
            Part::Tokenizer => DEFAULT_TOKENIZER_LENGTH,
        },
    }
}

impl Download {
    /// Begins a download, given the files that are there.
    pub fn begin(dirs: &Directories, disk: &Vec<Location>) -> (d: Download)
        ensures
            d@ == beginning(*dirs, disk@),
    {
        let stage = if check_qwen_model(dirs, disk) {
            Stage::Inspecting
        } else {
            Stage::FindingDirectory
        };
        Download {
            stage,
            endpoint: String::new(),
            model_length: 0,
            total_size: 0,
            downloaded: 0,
            last_report: 0,
            result: Ok(()),
        }
    }

    /// Tells what the application is to do next.
    pub fn action(&self) -> (action: DownloadAction<String>)
        ensures
            action_view(action) == asked(self@),
    {
        match self.stage {
            Stage::Inspecting => DownloadAction::LockPipeline,
            Stage::LoadingExisting => DownloadAction::LoadModel,
            Stage::FindingDirectory => DownloadAction::FindLocalDirectory,
            Stage::CreatingDirectory => DownloadAction::CreateDirectory,
            Stage::ReadingEndpoint => DownloadAction::ReadEndpoint,
            Stage::Sizing(part) => DownloadAction::AskLength(
                download_url(self.endpoint.as_str(), part),
            ),
            Stage::Requesting(part) => DownloadAction::Request(
                download_url(self.endpoint.as_str(), part),
            ),
            Stage::Creating(part) => DownloadAction::CreateFile(Self::partial(part)),
            Stage::Receiving(_) => DownloadAction::NextChunk,
            Stage::Writing(_, _) => DownloadAction::WriteChunk,
            Stage::Reporting(_) => DownloadAction::Report {
                downloaded: self.downloaded,
                total: self.total_size,
            },
            Stage::Flushing(_) => DownloadAction::Flush,
            Stage::Renaming(part) => DownloadAction::Rename {
                from: Self::partial(part),
                to: Self::complete(part),
            },
            Stage::LockingPipeline => DownloadAction::LockPipeline,
            Stage::Initializing => DownloadAction::LoadModel,
            Stage::Announcing => DownloadAction::Announce,
            Stage::Ended => match &self.result {
                Ok(()) => DownloadAction::Finish(Ok(())),
                Err(e) => DownloadAction::Finish(Err(e.clone())),
            },
        }
    }

    fn partial(part: Part) -> (l: Location)
        ensures
            l == partial_location(part),
    {
        match part {
            Part::Model => Location { root: Root::LocalData, asset: Asset::PartialModel },
            Part::Tokenizer => Location { root: Root::LocalData, asset: Asset::PartialTokenizer },
        }
    }

    fn complete(part: Part) -> (l: Location)
        ensures
            l == final_location(part),
    {
        match part {
            Part::Model => Location { root: Root::LocalData, asset: Asset::QuantizedModel },
            Part::Tokenizer => Location {
                root: Root::LocalData,
                asset: Asset::QuantizedTokenizer,
            },
        }
    }

    /// Tells whether the event is an answer to what was asked.
    pub fn accepts(&self, event: &DownloadEvent<String>) -> (b: bool)
        ensures
            b == accepts(self@, event_view(*event)),
    {
        match self.stage {
            Stage::Inspecting | Stage::LockingPipeline => match event {
                DownloadEvent::Locked { .. } | DownloadEvent::Failed(_) => true,
                _ => false,
            },
            Stage::ReadingEndpoint => match event {
                DownloadEvent::Endpoint(_) => true,
                _ => false,
            },
            Stage::Sizing(part) => match event {
                DownloadEvent::Length { reported, .. } => match part {
                    Part::Model => true,
                    Part::Tokenizer => self.model_length <= u64::MAX - length_of(
                        part,
                        *reported,
                    ),
                },
                _ => false,
            },
            Stage::Requesting(_) => match event {
                DownloadEvent::Failed(_) => true,
                DownloadEvent::Status(code) => 100 <= *code && *code <= 999,
                _ => false,
            },
            Stage::Receiving(_) => match event {
                DownloadEvent::Chunk { .. }
                | DownloadEvent::StreamEnded
                | DownloadEvent::Failed(_) => true,
                _ => false,
            },
            Stage::Writing(_, length) => match event {
                DownloadEvent::Failed(_) => true,
                DownloadEvent::Written { .. } => self.downloaded <= u64::MAX - length,
                _ => false,
            },
            Stage::Reporting(_) => match event {
                DownloadEvent::Reported { .. } => true,
                _ => false,
            },
            Stage::Announcing => match event {
                DownloadEvent::Succeeded => true,
                _ => false,
            },
            Stage::Ended => false,
            _ => match event {
                DownloadEvent::Succeeded | DownloadEvent::Failed(_) => true,
                _ => false,
            },
        }
    }

    /// Writes down that what was asked failed.
    fn failure(&self, reason: String) -> (text: String)
        ensures
            text@ == failure_words(self@, reason@),
    {
        let before: &str = match self.stage {
            Stage::FindingDirectory => "Failed to get local data dir: ",
            Stage::CreatingDirectory => "Failed to create models directory: ",
            Stage::Requesting(part) => {
                let url = download_url(self.endpoint.as_str(), part);
                let mut text = joined("Failed to start download from ", url.as_str());
                text.append(": ");
                text.append(reason.as_str());
                return text;
            },
            Stage::Creating(_) => "Failed to create temp file: ",
            Stage::Receiving(_) => "Error during download: ",
            Stage::Writing(_, _) => "Failed to write to file: ",
            Stage::Flushing(_) => "Failed to flush file: ",
            Stage::Renaming(part) => match part {
                Part::Model => "Failed to rename temp model file: ",
                Part::Tokenizer => "Failed to rename temp tokenizer file: ",
            },
            Stage::Initializing => "Failed to initialize model after download: ",
            _ => {
                return reason;
            },
        };
        joined(before, reason.as_str())
    }

    fn end(&mut self, result: Result<(), String>)
        ensures
            final(self)@ == ended(old(self)@, result_view(result)),
    {
        self.stage = Stage::Ended;
        self.result = result;
    }

    fn wait_for(&mut self, stage: Stage)
        ensures
            final(self)@ == waiting_for(old(self)@, stage),
    {
        self.stage = stage;
    }
}

/// Takes in how it went and decides what is to be done next.
pub fn download_qwen_model(download: &mut Download, event: DownloadEvent<String>) -> (action:
    DownloadAction<String>)
    requires
        accepts(old(download)@, event_view(event)),
    ensures
        final(download)@ == next(old(download)@, event_view(event)),
        action_view(action) == asked(final(download)@),
{
    match event {
        DownloadEvent::Failed(reason) => {
            let text = download.failure(reason);
            download.end(Err(text));
        },
        DownloadEvent::Locked { has_semantic } => match download.stage {
            Stage::Inspecting => {
                if has_semantic {
                    download.end(Ok(()));
                } else {
                    download.wait_for(Stage::LoadingExisting);
                }
            },
            _ => download.wait_for(Stage::Initializing),
        },
        DownloadEvent::Endpoint(configured) => {
            download.endpoint = match configured {
                Some(s) => s,
                None => DEFAULT_ENDPOINT.to_owned(),
            };
            download.stage = Stage::Sizing(Part::Model);
        },
        DownloadEvent::Length { reported, now } => {
            if let Stage::Sizing(part) = download.stage {
                let length: u64 = length_of(part, reported);
                match part {
                    Part::Model => {
                        download.model_length = length;
                        download.stage = Stage::Sizing(Part::Tokenizer);
                    },
                    Part::Tokenizer => {
                        download.total_size = download.model_length + length;
                        download.last_report = now;
                        download.stage = Stage::Requesting(Part::Model);
                    },
                }
            }
        },
        DownloadEvent::Status(code) => {
            if let Stage::Requesting(part) = download.stage {
                if status_is_success(code) {
                    download.wait_for(Stage::Creating(part));
                } else {
                    let url = download_url(download.endpoint.as_str(), part);
                    let status = status_text(code);
                    download.end(Err(status_failure(url.as_str(), status.as_str())));
                }
            }
        },
        DownloadEvent::Chunk { length } => {
            if let Stage::Receiving(part) = download.stage {
                download.wait_for(Stage::Writing(part, length));
            }
        },
        DownloadEvent::StreamEnded => {
            if let Stage::Receiving(part) = download.stage {
                download.wait_for(Stage::Flushing(part));
            }
        },
        DownloadEvent::Written { now } => {
            if let Stage::Writing(part, length) = download.stage {
                download.downloaded = download.downloaded + length;
                let waited = now > download.last_report && now - download.last_report
                    > REPORT_INTERVAL;
                download.stage = if waited || download.downloaded == download.total_size {
                    Stage::Reporting(part)
                } else {
                    Stage::Receiving(part)
                };
            }
        },
        DownloadEvent::Reported { now } => {
            if let Stage::Reporting(part) = download.stage {
                download.last_report = now;
                download.stage = Stage::Receiving(part);
            }
        },
        DownloadEvent::Succeeded => match download.stage {
            Stage::FindingDirectory => download.wait_for(Stage::CreatingDirectory),
            Stage::CreatingDirectory => download.wait_for(Stage::ReadingEndpoint),
            Stage::Creating(part) => download.wait_for(Stage::Receiving(part)),
            Stage::Flushing(part) => match part {
                Part::Model => download.wait_for(Stage::Requesting(Part::Tokenizer)),
                Part::Tokenizer => download.wait_for(Stage::Renaming(Part::Model)),
            },
            Stage::Renaming(part) => match part {
                Part::Model => download.wait_for(Stage::Renaming(Part::Tokenizer)),
                Part::Tokenizer => download.wait_for(Stage::LockingPipeline),
            },
            Stage::Initializing => download.wait_for(Stage::Announcing),
            _ => download.end(Ok(())),
        },
    }
    download.action()
}

} // verus!
