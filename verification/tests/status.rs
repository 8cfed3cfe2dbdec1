use rhema::status::{
    detection_status, reading_mode_status, toggle_paraphrase_detection, DetectionStatusResult, PipelineSettings,
};

#[test]
fn status_reports_the_settings() {
    for has_semantic in [true, false] {
        for use_synonyms in [true, false] {
            assert_eq!(
                detection_status(&PipelineSettings { has_semantic, use_synonyms }),
                DetectionStatusResult { has_direct: true, has_semantic, paraphrase_enabled: use_synonyms }
            );
        }
    }
}

#[test]
fn status_follows_the_paraphrase_switch() {
    let mut settings = PipelineSettings { has_semantic: true, use_synonyms: false };
    for enabled in [true, true, false, true, false, false] {
        assert_eq!(toggle_paraphrase_detection(&mut settings, enabled), enabled);
        let status = detection_status(&settings);
        assert_eq!(status.paraphrase_enabled, enabled);
        assert!(status.has_semantic);
    }
}

#[test]
fn reading_mode_is_reported_as_it_is() {
    let status = reading_mode_status(true, Some(4));
    assert!(status.active);
    assert_eq!(status.current_verse, Some(4));
    let status = reading_mode_status(false, None);
    assert!(!status.active);
    assert_eq!(status.current_verse, None);
}
