use phraser::actions::{
    action_map, ActiveActionState, BoundAction, Effect, Overlay, TranscribeAction, TrayIconState,
};
use phraser::settings::{AppSettings, RecordingRetentionPeriod, TextMap};

fn settings_with_microphone(always_on: bool) -> AppSettings {
    AppSettings {
        always_on_microphone: always_on,
        selected_language: "auto".to_string(),
        long_audio_model: None,
        post_process_provider_id: String::new(),
        post_process_providers: vec![],
        post_process_models: TextMap::new(),
        post_process_api_keys: TextMap::new(),
        post_process_prompts: vec![],
        post_process_selected_prompt_id: None,
        post_process_actions: vec![],
        history_limit: 5,
        recording_retention_period: RecordingRetentionPeriod::Never,
    }
}

#[test]
fn action_map_has_expected_keys() {
    let actions = action_map();
    assert!(actions.contains_key("transcribe"));
    assert!(actions.contains_key("transcribe_with_post_process"));
    assert!(actions.contains_key("cancel"));
    assert!(actions.contains_key("test"));
}

#[test]
fn action_map_binds_each_key() {
    let actions = action_map();
    assert_eq!(
        actions.get("transcribe"),
        Some(&BoundAction::Transcribe(TranscribeAction { post_process: false }))
    );
    assert_eq!(
        actions.get("transcribe_with_post_process"),
        Some(&BoundAction::Transcribe(TranscribeAction { post_process: true }))
    );
    assert_eq!(actions.get("cancel"), Some(&BoundAction::Cancel));
    assert_eq!(actions.get("test"), Some(&BoundAction::Test));
    assert_eq!(actions.get("other"), None);
}

#[test]
fn selected_key_is_taken_once() {
    let mut state = ActiveActionState(Some(3));
    assert_eq!(state.take(), Some(3));
    assert_eq!(state.take(), None);
}

#[test]
fn press_with_microphone_always_on() {
    let action = TranscribeAction { post_process: false };
    let settings = settings_with_microphone(true);
    assert_eq!(
        action.start(&settings, true),
        vec![
            Effect::SaveFrontmostApp,
            Effect::InitiateModelLoad,
            Effect::SetTray(TrayIconState::Recording),
            Effect::ShowOverlay(Overlay::Recording),
            Effect::StartSoundThenMute { delay_ms: 0 },
        ]
    );
    assert_eq!(
        action.recording_tried(&settings, true),
        vec![
            Effect::RegisterCancelShortcut,
            Effect::RegisterPauseShortcut,
            Effect::RegisterActionShortcuts,
        ]
    );
    assert!(action.recording_tried(&settings, false).is_empty());
}

#[test]
fn press_with_microphone_on_demand() {
    let action = TranscribeAction { post_process: false };
    let settings = settings_with_microphone(false);
    assert_eq!(
        action.start(&settings, false),
        vec![
            Effect::InitiateModelLoad,
            Effect::SetTray(TrayIconState::Recording),
            Effect::ShowOverlay(Overlay::Recording),
        ]
    );
    assert_eq!(
        action.recording_tried(&settings, true),
        vec![
            Effect::StartSoundThenMute { delay_ms: 100 },
            Effect::RegisterCancelShortcut,
            Effect::RegisterPauseShortcut,
            Effect::RegisterActionShortcuts,
        ]
    );
    assert!(action.recording_tried(&settings, false).is_empty());
}

#[test]
fn release_unregisters_and_unmutes() {
    let action = TranscribeAction { post_process: true };
    assert_eq!(
        action.stop(),
        vec![
            Effect::ResetCancelConfirmation,
            Effect::UnregisterCancelShortcut,
            Effect::UnregisterPauseShortcut,
            Effect::UnregisterActionShortcuts,
            Effect::SetTray(TrayIconState::Transcribing),
            Effect::ShowOverlay(Overlay::Transcribing),
            Effect::RemoveMute,
            Effect::StopSound,
        ]
    );
}
