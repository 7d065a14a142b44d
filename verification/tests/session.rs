use phraser::actions::{ActiveActionState, Effect, Overlay, TranscribeAction, TrayIconState};
use phraser::pipeline::ModelReply;
use phraser::post_process::TextStep;
use phraser::session::{
    long_audio_model_tried, maybe_switch_model_for_long_audio, paste_transcription_on_main_thread,
    reset_transcribe_ui, restore_model_after_long_audio, Command, Session, SessionEvent, Stage,
};
use phraser::settings::{
    AppSettings, PostProcessAction, PostProcessProvider, RecordingRetentionPeriod, TextMap,
};

fn session_settings(long_audio_model: Option<&str>) -> AppSettings {
    let mut models = TextMap::new();
    models.insert("openai".to_string(), "gpt".to_string());
    AppSettings {
        always_on_microphone: false,
        selected_language: "en".to_string(),
        long_audio_model: long_audio_model.map(|model| model.to_string()),
        post_process_provider_id: "openai".to_string(),
        post_process_providers: vec![PostProcessProvider {
            id: "openai".to_string(),
            label: "OpenAI".to_string(),
            base_url: "https://api.openai.com/v1".to_string(),
            allow_base_url_edit: false,
            requires_api_key: true,
            models_endpoint: None,
            supports_structured_output: false,
        }],
        post_process_models: models,
        post_process_api_keys: TextMap::new(),
        post_process_prompts: vec![],
        post_process_selected_prompt_id: None,
        post_process_actions: vec![
            PostProcessAction {
                key: 2,
                name: "First".to_string(),
                prompt: "first".to_string(),
                model: None,
                provider_id: None,
            },
            PostProcessAction {
                key: 2,
                name: "Second".to_string(),
                prompt: "second".to_string(),
                model: None,
                provider_id: None,
            },
        ],
        history_limit: 5,
        recording_retention_period: RecordingRetentionPeriod::Never,
    }
}

fn samples(long_audio_model: Option<&str>, current: Option<&str>, over: bool) -> SessionEvent {
    SessionEvent::Samples {
        settings: session_settings(long_audio_model),
        current_model: current.map(|model| model.to_string()),
        over_threshold: over,
    }
}

/// One line for each command.
fn lines(commands: &Vec<Command>) -> Vec<String> {
    commands
        .iter()
        .map(|command| match command {
            Command::Perform(effect) => format!("{:?}", effect),
            Command::SwitchModel(model) => format!("switch {}", model),
            Command::Transcribe => "transcribe".to_string(),
            Command::Ask => "ask".to_string(),
            Command::Save(record) => format!(
                "save {} {:?} {:?} {:?}",
                record.transcription,
                record.post_processed_text,
                record.post_process_prompt,
                record.action_key
            ),
            Command::Paste(text) => format!("paste {}", text),
            Command::RestoreModel(model) => format!("restore {}", model),
        })
        .collect()
}

fn heard(text: &str) -> SessionEvent {
    SessionEvent::Transcribed(Ok(text.to_string()))
}

#[test]
fn switch_needs_a_long_recording_and_another_model() {
    let current = Some("small".to_string());
    let with = session_settings(Some("large"));
    assert_eq!(
        maybe_switch_model_for_long_audio(&current, &with, true),
        Some("large".to_string())
    );
    assert_eq!(
        maybe_switch_model_for_long_audio(&None, &with, true),
        Some("large".to_string())
    );
    assert_eq!(maybe_switch_model_for_long_audio(&current, &with, false), None);
    let large = Some("large".to_string());
    assert_eq!(maybe_switch_model_for_long_audio(&large, &with, true), None);
    let without = session_settings(None);
    assert_eq!(maybe_switch_model_for_long_audio(&current, &without, true), None);
}

#[test]
fn model_is_restored_after_a_switch_only() {
    let current = || Some("small".to_string());
    assert_eq!(long_audio_model_tried(current(), true), current());
    assert_eq!(long_audio_model_tried(current(), false), None);
    assert_eq!(long_audio_model_tried(None, true), None);
    assert_eq!(lines(&restore_model_after_long_audio(current())), vec!["restore small"]);
    assert!(restore_model_after_long_audio(None).is_empty());
}

#[test]
fn paste_resets_the_screen_in_any_case() {
    let reset = vec![Effect::HideOverlay, Effect::SetTray(TrayIconState::Idle)];
    assert_eq!(reset_transcribe_ui(), reset);
    let plan = paste_transcription_on_main_thread(true);
    assert_eq!(plan.before, vec![Effect::RestoreFrontmostApp]);
    assert_eq!(plan.after, reset);
    assert_eq!(plan.unreachable, reset);
    assert!(paste_transcription_on_main_thread(false).before.is_empty());
}

#[test]
fn session_without_samples_resets() {
    let session = Session::new(&TranscribeAction { post_process: false }, None, false);
    let (session, commands) = session.step(SessionEvent::NoSamples);
    assert_eq!(lines(&commands), vec!["HideOverlay", "SetTray(Idle)"]);
    assert!(matches!(session.stage, Stage::Done));
    let (_, commands) = session.step(SessionEvent::NoSamples);
    assert!(commands.is_empty());
}

#[test]
fn plain_session_saves_and_pastes() {
    let session = Session::new(&TranscribeAction { post_process: false }, Some(9), false);
    let (session, commands) = session.step(samples(None, Some("small"), true));
    assert_eq!(lines(&commands), vec!["transcribe"]);
    let (session, commands) = session.step(heard("hello"));
    assert_eq!(lines(&commands), vec!["save hello None None None", "paste hello"]);
    assert!(matches!(session.stage, Stage::Done));
}

#[test]
fn long_recording_switches_and_restores() {
    for (event, expected) in [
        (heard("hello"), vec!["save hello None None None", "paste hello", "restore small"]),
        (heard(""), vec!["HideOverlay", "SetTray(Idle)", "restore small"]),
        (
            SessionEvent::Transcribed(Err("no".to_string())),
            vec!["HideOverlay", "SetTray(Idle)", "restore small"],
        ),
    ] {
        let session = Session::new(&TranscribeAction { post_process: false }, None, false);
        let (session, commands) = session.step(samples(Some("large"), Some("small"), true));
        assert_eq!(lines(&commands), vec!["switch large"]);
        let (session, commands) = session.step(SessionEvent::ModelTried { loaded: true });
        assert_eq!(lines(&commands), vec!["transcribe"]);
        let (session, commands) = session.step(event);
        assert_eq!(lines(&commands), expected);
        assert!(matches!(session.stage, Stage::Done));
    }
}

#[test]
fn failed_switch_restores_nothing() {
    let session = Session::new(&TranscribeAction { post_process: false }, None, false);
    let (session, _) = session.step(samples(Some("large"), Some("small"), true));
    let (session, _) = session.step(SessionEvent::ModelTried { loaded: false });
    let (_, commands) = session.step(heard("hello"));
    assert_eq!(lines(&commands), vec!["save hello None None None", "paste hello"]);
}

#[test]
fn action_session_asks_then_saves_its_key() {
    let session = Session::new(&TranscribeAction { post_process: false }, Some(2), false);
    let (session, _) = session.step(samples(Some("large"), Some("small"), true));
    let (session, _) = session.step(SessionEvent::ModelTried { loaded: true });
    assert!(session.question().is_none());
    let (session, commands) = session.step(heard("hello"));
    let overlay = format!("{:?}", Effect::ShowOverlay(Overlay::Processing));
    assert_eq!(lines(&commands), vec![overlay, "ask".to_string()]);
    match session.question() {
        Some(TextStep::AskAction(call)) => assert_eq!(call.user_content, "first\n\nhello"),
        _ => panic!("another question"),
    }
    let (session, commands) = session.step(heard("again"));
    assert!(commands.is_empty());
    let reply = ModelReply::Chat(Ok(Some("HELLO".to_string())));
    let (session, commands) = session.step(SessionEvent::Replied(reply));
    assert_eq!(
        lines(&commands),
        vec![
            "save hello Some(\"HELLO\") Some(\"first\") Some(2)",
            "paste HELLO",
            "restore small",
        ]
    );
    assert!(matches!(session.stage, Stage::Done));
}

#[test]
fn failed_action_saves_no_key() {
    let session = Session::new(&TranscribeAction { post_process: false }, Some(2), false);
    let (session, _) = session.step(samples(None, None, false));
    let (session, _) = session.step(heard("hello"));
    let reply = ModelReply::Chat(Err("500".to_string()));
    let (_, commands) = session.step(SessionEvent::Replied(reply));
    assert_eq!(lines(&commands), vec!["save hello None None None", "paste hello"]);
}

#[test]
fn post_processing_shows_overlay_even_if_nothing_is_asked() {
    let session = Session::new(&TranscribeAction { post_process: true }, None, false);
    let (session, _) = session.step(samples(None, None, false));
    let (_, commands) = session.step(heard("hello"));
    assert_eq!(
        lines(&commands),
        vec!["ShowOverlay(Processing)", "save hello None None None", "paste hello"]
    );
}

#[test]
fn selected_key_serves_one_release() {
    let action = TranscribeAction { post_process: true };
    let mut selected = ActiveActionState(Some(2));
    let first = action.begin_session(&mut selected, true);
    assert_eq!(selected.0, None);
    assert_eq!(first.selected_action_key, Some(2));
    assert!(first.post_process);
    assert!(first.apple_supported);
    assert!(matches!(first.stage, Stage::Stopping));
    let second = action.begin_session(&mut selected, false);
    assert_eq!(selected.0, None);
    assert_eq!(second.selected_action_key, None);
    let (first, _) = first.step(SessionEvent::NoSamples);
    assert_eq!(first.selected_action_key, Some(2));
}
