//! Decisions of a live scripture-detection assistant: how a detected passage is
//! resolved to a verse, how two kinds of search hits are merged and ranked, where
//! the embedding model is looked for, and how it is downloaded and loaded.
pub mod assets;
pub mod detection;
pub mod detection_laws;
pub mod download;
pub mod download_laws;
pub mod file_laws;
pub mod http;
pub mod loading;
pub mod ranking;
pub mod run_laws;
pub mod score;
pub mod search;
pub mod search_laws;
pub mod status;
pub mod text;
pub mod verse;
