use phraser::history::{
    get_audio_file_path, parse_recording_retention_period, path_to_string,
    reprocess_history_entry, text_or_invalid, update_history_limit,
    update_recording_retention_period, Reprocess, ReprocessCommand, ReprocessEvent,
    ReprocessStage,
};
use phraser::settings::{AppSettings, RecordingRetentionPeriod, TextMap};

fn plain_settings() -> AppSettings {
    AppSettings {
        always_on_microphone: false,
        selected_language: "auto".to_string(),
        long_audio_model: None,
        post_process_provider_id: "openai".to_string(),
        post_process_providers: vec![],
        post_process_models: TextMap::new(),
        post_process_api_keys: TextMap::new(),
        post_process_prompts: vec![],
        post_process_selected_prompt_id: None,
        post_process_actions: vec![],
        history_limit: 5,
        recording_retention_period: RecordingRetentionPeriod::Never,
    }
}

#[test]
fn parse_recording_retention_period_accepts_valid_values() {
    assert!(matches!(
        parse_recording_retention_period("never"),
        Ok(RecordingRetentionPeriod::Never)
    ));
    assert!(matches!(
        parse_recording_retention_period("preserve_limit"),
        Ok(RecordingRetentionPeriod::PreserveLimit)
    ));
    assert!(matches!(
        parse_recording_retention_period("days3"),
        Ok(RecordingRetentionPeriod::Days3)
    ));
    assert!(matches!(
        parse_recording_retention_period("weeks2"),
        Ok(RecordingRetentionPeriod::Weeks2)
    ));
    assert!(matches!(
        parse_recording_retention_period("months3"),
        Ok(RecordingRetentionPeriod::Months3)
    ));
}

#[test]
fn parse_recording_retention_period_rejects_invalid_value() {
    assert_eq!(
        parse_recording_retention_period("invalid"),
        Err("Invalid retention period: invalid".to_string())
    );
}

#[test]
fn path_to_string_returns_string_for_valid_utf8_path() {
    let path = std::path::PathBuf::from("/tmp/file.wav");
    assert_eq!(path_to_string(&path), Ok("/tmp/file.wav".to_string()));
}

#[test]
fn path_without_text_is_invalid() {
    assert_eq!(text_or_invalid(None), Err("Invalid file path".to_string()));
    assert_eq!(text_or_invalid(Some("a")), Ok("a".to_string()));
}

#[test]
fn audio_path_keeps_error() {
    assert_eq!(
        get_audio_file_path(Ok(std::path::PathBuf::from("/a/b.wav"))),
        Ok("/a/b.wav".to_string())
    );
    assert_eq!(get_audio_file_path(Err("gone".to_string())), Err("gone".to_string()));
}

#[test]
fn limit_and_period_are_set_alone() {
    let mut settings = plain_settings();
    update_history_limit(&mut settings, 17);
    assert_eq!(settings.history_limit, 17);
    assert_eq!(settings.recording_retention_period, RecordingRetentionPeriod::Never);
    assert_eq!(update_recording_retention_period(&mut settings, "weeks2"), Ok(()));
    assert_eq!(settings.recording_retention_period, RecordingRetentionPeriod::Weeks2);
    assert_eq!(
        update_recording_retention_period(&mut settings, "Weeks2"),
        Err("Invalid retention period: Weeks2".to_string())
    );
    assert_eq!(settings.recording_retention_period, RecordingRetentionPeriod::Weeks2);
    assert_eq!(settings.history_limit, 17);
    assert_eq!(settings.post_process_provider_id, "openai");
}

fn expect(next: (Reprocess, Option<ReprocessCommand>)) -> (Reprocess, ReprocessCommand) {
    (next.0, next.1.unwrap())
}

fn updating(previous: Option<&str>) -> Reprocess {
    let (work, command) = reprocess_history_entry(7, "large".to_string());
    assert!(matches!(command, ReprocessCommand::FindEntry(7)));
    let (work, command) =
        expect(work.step(ReprocessEvent::Entry(Ok(Some("a.wav".to_string())))));
    assert!(matches!(command, ReprocessCommand::FindAudio(name) if name == "a.wav"));
    let (work, command) = expect(work.step(ReprocessEvent::Audio(Ok(true))));
    assert!(matches!(command, ReprocessCommand::ReadAudio));
    let (work, command) = expect(work.step(ReprocessEvent::Samples {
        read: Ok(()),
        current_model: previous.map(|model| model.to_string()),
    }));
    assert!(matches!(command, ReprocessCommand::LoadModel(model) if model == "large"));
    let (work, command) = expect(work.step(ReprocessEvent::ModelLoaded(Ok(()))));
    assert!(matches!(command, ReprocessCommand::Transcribe));
    let (work, command) = expect(work.step(ReprocessEvent::Transcribed {
        outcome: Ok("hello".to_string()),
        model_name: Some("Large".to_string()),
    }));
    match command {
        ReprocessCommand::UpdateEntry { id, new_text, model_name } => {
            assert_eq!(id, 7);
            assert_eq!(new_text, "hello");
            assert_eq!(model_name, Some("Large".to_string()));
        }
        _ => panic!("no update"),
    }
    work
}

fn finish(next: (Reprocess, Option<ReprocessCommand>)) -> (Option<String>, Result<String, String>) {
    assert!(matches!(next.0.stage, ReprocessStage::Finished));
    match next.1 {
        Some(ReprocessCommand::Finish { restore, outcome }) => (restore, outcome),
        _ => panic!("no end"),
    }
}

#[test]
fn reprocessing_restores_another_model() {
    let end = finish(updating(Some("small")).step(ReprocessEvent::Updated(Ok(()))));
    assert_eq!(end, (Some("small".to_string()), Ok("hello".to_string())));
    let end = finish(updating(Some("large")).step(ReprocessEvent::Updated(Ok(()))));
    assert_eq!(end, (None, Ok("hello".to_string())));
    let end = finish(updating(None).step(ReprocessEvent::Updated(Ok(()))));
    assert_eq!(end, (None, Ok("hello".to_string())));
}

#[test]
fn reprocessing_failures_end_without_restore() {
    let end = finish(updating(Some("small")).step(ReprocessEvent::Updated(Err("db".to_string()))));
    assert_eq!(end, (None, Err("db".to_string())));

    let (work, _) = reprocess_history_entry(7, "large".to_string());
    let end = finish(work.step(ReprocessEvent::Entry(Ok(None))));
    assert_eq!(end, (None, Err("History entry not found".to_string())));

    let (work, _) = reprocess_history_entry(7, "large".to_string());
    let end = finish(work.step(ReprocessEvent::Entry(Err("io".to_string()))));
    assert_eq!(end, (None, Err("io".to_string())));

    let (work, _) = reprocess_history_entry(7, "large".to_string());
    let (work, _) = expect(work.step(ReprocessEvent::Entry(Ok(Some("a.wav".to_string())))));
    let end = finish(work.step(ReprocessEvent::Audio(Ok(false))));
    assert_eq!(end, (None, Err("Audio file not found".to_string())));
}

#[test]
fn unexpected_event_is_passed_over() {
    let (work, _) = reprocess_history_entry(7, "large".to_string());
    let (work, command) = work.step(ReprocessEvent::Updated(Ok(())));
    assert!(command.is_none());
    assert!(matches!(work.stage, ReprocessStage::FindingEntry));
}
