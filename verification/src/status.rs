//! What the frontend is told of the detection pipeline and of reading mode.
use vstd::prelude::*;

verus! {

/// The switches of the detection pipeline.
#[derive(Clone, Copy, Debug, PartialEq, Eq, Structural)]
pub struct PipelineSettings {
    /// Whether an embedding model and its verse index are loaded.
    pub has_semantic: bool,
    /// Whether synonyms are expanded, so that paraphrases are detected.
    pub use_synonyms: bool,
}

/// Which kinds of detection are at work.
#[derive(Clone, Copy, Debug, PartialEq, Eq, Structural)]
pub struct DetectionStatusResult {
    pub has_direct: bool,
    pub has_semantic: bool,
    pub paraphrase_enabled: bool,
}

/// Whether reading mode is on, and at which verse it stands.
#[derive(Clone, Copy, Debug)]
pub struct ReadingModeStatus {
    pub active: bool,
    pub current_verse: Option<i32>,
}

/// What [`detection_status`] says of these settings.
pub open spec fn status_of(settings: PipelineSettings) -> DetectionStatusResult {
    DetectionStatusResult {
        has_direct: true,
        has_semantic: settings.has_semantic,
        paraphrase_enabled: settings.use_synonyms,
    }
}

/// Tells which kinds of detection are at work. Direct references always are.
pub fn detection_status(settings: &PipelineSettings) -> (status: DetectionStatusResult)
    ensures
        status == status_of(*settings),
{
    DetectionStatusResult {
        has_direct: true,
        has_semantic: settings.has_semantic,
        paraphrase_enabled: settings.use_synonyms,
    }
}

/// The settings with paraphrase detection switched on or off.
pub open spec fn with_paraphrase(settings: PipelineSettings, enabled: bool) -> PipelineSettings {
    PipelineSettings { has_semantic: settings.has_semantic, use_synonyms: enabled }
}

/// Switches paraphrase detection on or off and tells which it is now.
pub fn toggle_paraphrase_detection(settings: &mut PipelineSettings, enabled: bool) -> (now: bool)
    ensures
        *final(settings) == with_paraphrase(*old(settings), enabled),
        now == enabled,
{
    settings.use_synonyms = enabled;
    enabled
}

/// Tells whether reading mode is on, and at which verse it stands.
pub fn reading_mode_status(active: bool, current_verse: Option<i32>) -> (status:
    ReadingModeStatus)
    ensures
        status.active == active,
        status.current_verse == current_verse,
{
    ReadingModeStatus { active, current_verse }
}

/// The status reports the paraphrase switch as it was last set, and switching it
/// leaves the rest of the status as it was.
pub proof fn law_status_follows_the_switch(settings: PipelineSettings, enabled: bool)
    ensures
        status_of(with_paraphrase(settings, enabled)).paraphrase_enabled == enabled,
        status_of(with_paraphrase(settings, enabled)).has_semantic == status_of(
            settings,
        ).has_semantic,
        status_of(with_paraphrase(settings, enabled)).has_direct,
{
}

/// The status tells the two switches as they are, each under its own name, and that
/// direct references are always detected; switching paraphrases touches no other switch.
pub proof fn law_status_tells_the_settings(settings: PipelineSettings, enabled: bool)
    ensures
        status_of(settings).has_direct,
        status_of(settings).has_semantic == settings.has_semantic,
        status_of(settings).paraphrase_enabled == settings.use_synonyms,
        with_paraphrase(settings, enabled).use_synonyms == enabled,
        with_paraphrase(settings, enabled).has_semantic == settings.has_semantic,
{
}

} // verus!
