//! What follows the release of a transcription shortcut: the recording is
//! transcribed, processed, saved and pasted.
//!
//! A session is told what happened and says what is to be done next.
use crate::actions::{ActiveActionState, Effect, Overlay, TranscribeAction, TrayIconState};
use crate::pipeline;
use crate::pipeline::{build_processed_text, ModelReply, PipelineView, TextPipeline};
use crate::post_process::TextStep;
use crate::settings;
use crate::settings::{AppSettings, PostProcessAction};
use crate::text;
use vstd::prelude::*;

verus! {

// ---------------------------------------------------------------------------
// The model for long recordings
// ---------------------------------------------------------------------------

/// The model to load for a recording: the one for long recordings, where there
/// is one, the recording is longer than the threshold, and it is not loaded
/// already.
pub open spec fn long_audio_switch(
    current_model: Option<Seq<char>>,
    long_audio_model: Option<Seq<char>>,
    over_threshold: bool,
) -> Option<Seq<char>> {
    match long_audio_model {
        Some(long_model) => if over_threshold && current_model != Some(long_model) {
            Some(long_model)
        } else {
            None
        },
        None => None,
    }
}

/// Decides whether another model is to be loaded for a recording, and returns
/// its id.
pub fn maybe_switch_model_for_long_audio(
    current_model: &Option<String>,
    settings: &AppSettings,
    over_threshold: bool,
) -> (switch: Option<String>)
    ensures
        text::opt_text(switch) == long_audio_switch(
            text::opt_text(*current_model),
            text::opt_text(settings.long_audio_model),
            over_threshold,
        ),
{
    let long_model = match &settings.long_audio_model {
        Some(long_model) => long_model,
        None => return None,
    };
    let loaded = match current_model {
        Some(current) => text::same_text(current.as_str(), long_model.as_str()),
        None => false,
    };
    if over_threshold && !loaded {
        Some(long_model.clone())
    } else {
        None
    }
}

/// The model to go back to after a recording: the one that was loaded before,
/// where another one has taken its place.
pub open spec fn model_to_restore(current_model: Option<Seq<char>>, loaded: bool) -> Option<
    Seq<char>,
> {
    if loaded {
        current_model
    } else {
        None
    }
}

/// Says which model to go back to, once the model for long recordings was
/// loaded or failed to load.
pub fn long_audio_model_tried(current_model: Option<String>, loaded: bool) -> (original: Option<
    String,
>)
    ensures
        text::opt_text(original) == model_to_restore(text::opt_text(current_model), loaded),
{
    if loaded {
        current_model
    } else {
        None
    }
}

// ---------------------------------------------------------------------------
// Commands
// ---------------------------------------------------------------------------

/// A transcription to be saved to the history, along with its recording.
pub struct HistoryRecord {
    pub transcription: String,
    pub post_processed_text: Option<String>,
    pub post_process_prompt: Option<String>,
    pub action_key: Option<u8>,
}

/// The model of a [`HistoryRecord`].
#[verifier::ext_equal]
pub struct RecordView {
    pub transcription: Seq<char>,
    pub post_processed_text: Option<Seq<char>>,
    pub post_process_prompt: Option<Seq<char>>,
    pub action_key: Option<u8>,
}

impl View for HistoryRecord {
    type V = RecordView;

    open spec fn view(&self) -> RecordView {
        RecordView {
            transcription: self.transcription@,
            post_processed_text: text::opt_text(self.post_processed_text),
            post_process_prompt: text::opt_text(self.post_process_prompt),
            action_key: self.action_key,
        }
    }
}

/// Something that a session wants done.
pub enum Command {
    /// Do this at once.
    Perform(Effect),
    /// Load a model, and tell the session whether it was loaded.
    SwitchModel(String),
    /// Transcribe the recording, and tell the session what came of it.
    Transcribe,
    /// Put the question of the session to its model, and tell it the answer.
    Ask,
    /// Save a transcription to the history, in the background.
    Save(HistoryRecord),
    /// Paste a text.
    Paste(String),
    /// Load a model, whatever comes of it.
    RestoreModel(String),
}

/// The model of a [`Command`].
#[verifier::ext_equal]
pub enum CommandView {
    Perform(Effect),
    SwitchModel(Seq<char>),
    Transcribe,
    Ask,
    Save(RecordView),
    Paste(Seq<char>),
    RestoreModel(Seq<char>),
}

impl View for Command {
    type V = CommandView;

    open spec fn view(&self) -> CommandView {
        match self {
            Command::Perform(effect) => CommandView::Perform(*effect),
            Command::SwitchModel(model) => CommandView::SwitchModel(model@),
            Command::Transcribe => CommandView::Transcribe,
            Command::Ask => CommandView::Ask,
            Command::Save(record) => CommandView::Save(record@),
            Command::Paste(content) => CommandView::Paste(content@),
            Command::RestoreModel(model) => CommandView::RestoreModel(model@),
        }
    }
}

/// The model of a list of commands.
pub open spec fn commands_view(commands: Seq<Command>) -> Seq<CommandView> {
    commands.map_values(|command: Command| command@)
}

/// Hiding the overlay and showing the idle icon.
pub open spec fn reset_effects() -> Seq<Effect> {
    seq![Effect::HideOverlay, Effect::SetTray(TrayIconState::Idle)]
}

/// What hides the overlay and shows the idle icon.
pub fn reset_transcribe_ui() -> (effects: Vec<Effect>)
    ensures
        effects@ == reset_effects(),
{
    let mut effects: Vec<Effect> = Vec::new();
    effects.push(Effect::HideOverlay);
    effects.push(Effect::SetTray(TrayIconState::Idle));
    effects
}

/// What is done about a text to paste.
pub struct PastePlan {
    /// On the main thread, before the text is pasted.
    pub before: Vec<Effect>,
    /// On the main thread, once it was pasted or failed to be pasted.
    pub after: Vec<Effect>,
    /// Instead of all this, where the main thread cannot be reached.
    pub unreachable: Vec<Effect>,
}

/// Plans how a text is pasted: into the application that was in front, where the
/// platform is a Mac. The overlay and the icon are reset in any case.
pub fn paste_transcription_on_main_thread(macos: bool) -> (plan: PastePlan)
    ensures
        plan.before@ == (if macos {
            seq![Effect::RestoreFrontmostApp]
        } else {
            Seq::empty()
        }),
        plan.after@ == reset_effects(),
        plan.unreachable@ == reset_effects(),
{
    let mut before: Vec<Effect> = Vec::new();
    if macos {
        before.push(Effect::RestoreFrontmostApp);
    }
    PastePlan { before, after: reset_transcribe_ui(), unreachable: reset_transcribe_ui() }
}

// ---------------------------------------------------------------------------
// Sessions
// ---------------------------------------------------------------------------

/// How far a session has come.
pub enum Stage {
    /// The recording is being stopped.
    Stopping,
    /// The model for long recordings is being loaded. `current_model` was loaded
    /// before.
    Switching { settings: AppSettings, current_model: Option<String> },
    /// The recording is being transcribed. `original_model` is to be loaded
    /// again afterwards.
    Transcribing { settings: AppSettings, original_model: Option<String> },
    /// A model is being asked about the transcription.
    Processing { pipeline: TextPipeline, original_model: Option<String> },
    /// Nothing is left to be done.
    Done,
}

/// The model of a [`Stage`].
#[verifier::ext_equal]
pub enum StageView {
    Stopping,
    Switching { settings: AppSettings, current_model: Option<Seq<char>> },
    Transcribing { settings: AppSettings, original_model: Option<Seq<char>> },
    Processing { pipeline: PipelineView, original_model: Option<Seq<char>> },
    Done,
}

impl View for Stage {
    type V = StageView;

    open spec fn view(&self) -> StageView {
        match self {
            Stage::Stopping => StageView::Stopping,
            Stage::Switching { settings, current_model } => StageView::Switching {
                settings: *settings,
                current_model: text::opt_text(*current_model),
            },
            Stage::Transcribing { settings, original_model } => StageView::Transcribing {
                settings: *settings,
                original_model: text::opt_text(*original_model),
            },
            Stage::Processing { pipeline, original_model } => StageView::Processing {
                pipeline: pipeline@,
                original_model: text::opt_text(*original_model),
            },
            Stage::Done => StageView::Done,
        }
    }
}

/// One recording on its way from the release of the shortcut to the paste.
pub struct Session {
    pub post_process: bool,
    pub selected_action_key: Option<u8>,
    pub apple_supported: bool,
    pub stage: Stage,
}

/// The model of a [`Session`].
#[verifier::ext_equal]
pub struct SessionView {
    pub post_process: bool,
    pub selected_action_key: Option<u8>,
    pub apple_supported: bool,
    pub stage: StageView,
}

impl View for Session {
    type V = SessionView;

    open spec fn view(&self) -> SessionView {
        SessionView {
            post_process: self.post_process,
            selected_action_key: self.selected_action_key,
            apple_supported: self.apple_supported,
            stage: self.stage@,
        }
    }
}

/// Something that happened to a session.
pub enum SessionEvent {
    /// Stopping the recording yielded no samples.
    NoSamples,
    /// Stopping the recording yielded samples. The settings are those of this
    /// moment, and stay in force for the rest of the session.
    Samples { settings: AppSettings, current_model: Option<String>, over_threshold: bool },
    /// The model for long recordings was loaded, or failed to load.
    ModelTried { loaded: bool },
    /// The recording was transcribed, or could not be.
    Transcribed(Result<String, String>),
    /// The model that was asked answered.
    Replied(ModelReply),
}

/// The action that was selected while recording.
pub open spec fn selected_action(settings: AppSettings, key: Option<u8>) -> Option<
    PostProcessAction,
> {
    match key {
        Some(key) => settings::action_with_key(settings, key),
        None => None,
    }
}

/// What resets the overlay and the icon.
pub open spec fn reset_commands() -> Seq<CommandView> {
    seq![
        CommandView::Perform(Effect::HideOverlay),
        CommandView::Perform(Effect::SetTray(TrayIconState::Idle)),
    ]
}

/// What loads the original model again.
pub open spec fn restore_commands(original_model: Option<Seq<char>>) -> Seq<CommandView> {
    match original_model {
        Some(model) => seq![CommandView::RestoreModel(model)],
        None => Seq::empty(),
    }
}

/// The record of a finished transcription. The key of the action is part of it
/// only where the transcription was changed.
pub open spec fn history_record(
    transcription: Seq<char>,
    result: pipeline::ResultView,
    key: Option<u8>,
) -> RecordView {
    RecordView {
        transcription,
        post_processed_text: result.post_processed_text,
        post_process_prompt: result.post_process_prompt,
        action_key: if result.post_processed_text is Some {
            key
        } else {
            None
        },
    }
}

/// The session with its pipeline: it goes on asking, or saves, pastes, and loads
/// the original model again.
pub open spec fn processed(
    session: SessionView,
    pipeline: PipelineView,
    original_model: Option<Seq<char>>,
) -> (SessionView, Seq<CommandView>) {
    match pipeline::outcome(pipeline) {
        Some(result) => (
            SessionView { stage: StageView::Done, ..session },
            seq![
                CommandView::Save(
                    history_record(pipeline.transcription, result, session.selected_action_key),
                ),
                CommandView::Paste(result.final_text),
            ] + restore_commands(original_model),
        ),
        None => (
            SessionView { stage: StageView::Processing { pipeline, original_model }, ..session },
            seq![CommandView::Ask],
        ),
    }
}

/// The pipeline of a transcription in a session.
pub open spec fn session_pipeline(
    session: SessionView,
    settings: AppSettings,
    transcription: Seq<char>,
) -> PipelineView {
    pipeline::begun(
        settings,
        transcription,
        crate::chinese::chinese_variant(settings.selected_language@, transcription),
        selected_action(settings, session.selected_action_key),
        session.post_process,
        session.apple_supported,
    )
}

/// The session after a transcription. An empty one ends it.
pub open spec fn transcribed(
    session: SessionView,
    settings: AppSettings,
    original_model: Option<Seq<char>>,
    outcome: Result<Seq<char>, Seq<char>>,
) -> (SessionView, Seq<CommandView>) {
    match outcome {
        Ok(transcription) => if transcription.len() > 0 {
            let shown: Seq<CommandView> = if selected_action(
                settings,
                session.selected_action_key,
            ) is Some || session.post_process {
                seq![CommandView::Perform(Effect::ShowOverlay(Overlay::Processing))]
            } else {
                Seq::empty()
            };
            let (next, commands) = processed(
                session,
                session_pipeline(session, settings, transcription),
                original_model,
            );
            (next, shown + commands)
        } else {
            (
                SessionView { stage: StageView::Done, ..session },
                reset_commands() + restore_commands(original_model),
            )
        },
        Err(_) => (
            SessionView { stage: StageView::Done, ..session },
            reset_commands() + restore_commands(original_model),
        ),
    }
}

/// What an event makes of a session, and what is to be done then. An event that
/// the session does not wait for changes nothing.
pub open spec fn session_step(session: SessionView, event: SessionEvent) -> (
    SessionView,
    Seq<CommandView>,
) {
    match (session.stage, event) {
        (StageView::Stopping, SessionEvent::NoSamples) => (
            SessionView { stage: StageView::Done, ..session },
            reset_commands(),
        ),
        (
            StageView::Stopping,
            SessionEvent::Samples { settings, current_model, over_threshold },
        ) => match long_audio_switch(
            text::opt_text(current_model),
            text::opt_text(settings.long_audio_model),
            over_threshold,
        ) {
            Some(model) => (
                SessionView {
                    stage: StageView::Switching {
                        settings,
                        current_model: text::opt_text(current_model),
                    },
                    ..session
                },
                seq![CommandView::SwitchModel(model)],
            ),
            None => (
                SessionView {
                    stage: StageView::Transcribing { settings, original_model: None },
                    ..session
                },
                seq![CommandView::Transcribe],
            ),
        },
        (
            StageView::Switching { settings, current_model },
            SessionEvent::ModelTried { loaded },
        ) => (
            SessionView {
                stage: StageView::Transcribing {
                    settings,
                    original_model: model_to_restore(current_model, loaded),
                },
                ..session
            },
            seq![CommandView::Transcribe],
        ),
        (
            StageView::Transcribing { settings, original_model },
            SessionEvent::Transcribed(outcome),
        ) => transcribed(session, settings, original_model, text::result_view(outcome)),
        (
            StageView::Processing { pipeline, original_model },
            SessionEvent::Replied(reply),
        ) => if pipeline::answers(reply, pipeline.step) {
            processed(session, pipeline::advanced(pipeline, reply), original_model)
        } else {
            (session, Seq::empty())
        },
        _ => (session, Seq::empty()),
    }
}

/// What is done to load the original model again, where a switch took place.
pub fn restore_model_after_long_audio(original_model: Option<String>) -> (commands: Vec<Command>)
    ensures
        commands_view(commands@) == restore_commands(text::opt_text(original_model)),
{
    let mut commands: Vec<Command> = Vec::new();
    if let Some(model) = original_model {
        commands.push(Command::RestoreModel(model));
    }
    assert(commands_view(commands@) =~= restore_commands(text::opt_text(original_model)));
    commands
}

/// The commands of `first`, then those of `second`.
fn both(first: Vec<Command>, second: Vec<Command>) -> (commands: Vec<Command>)
    ensures
        commands_view(commands@) == commands_view(first@) + commands_view(second@),
{
    let mut commands = first;
    let mut rest = second;
    commands.append(&mut rest);
    assert(commands_view(commands@) =~= commands_view(first@) + commands_view(second@));
    commands
}

fn one(command: Command) -> (commands: Vec<Command>)
    ensures
        commands_view(commands@) == seq![command@],
{
    let mut commands: Vec<Command> = Vec::new();
    commands.push(command);
    assert(commands_view(commands@) =~= seq![command@]);
    commands
}

fn none() -> (commands: Vec<Command>)
    ensures
        commands_view(commands@) == Seq::<CommandView>::empty(),
{
    let commands: Vec<Command> = Vec::new();
    assert(commands_view(commands@) =~= Seq::<CommandView>::empty());
    commands
}

fn reset() -> (commands: Vec<Command>)
    ensures
        commands_view(commands@) == reset_commands(),
{
    let mut commands: Vec<Command> = Vec::new();
    commands.push(Command::Perform(Effect::HideOverlay));
    commands.push(Command::Perform(Effect::SetTray(TrayIconState::Idle)));
    assert(commands_view(commands@) =~= reset_commands());
    commands
}

/// What a pipeline makes of the session around it.
fn with_pipeline(
    pipeline: TextPipeline,
    original_model: Option<String>,
    key: Option<u8>,
) -> (next: (Stage, Vec<Command>))
    ensures
        forall|session: SessionView|
            session.selected_action_key == key ==> #[trigger] processed(
                session,
                pipeline@,
                text::opt_text(original_model),
            ) == (
                SessionView { stage: next.0@, ..session },
                commands_view(next.1@),
            ),
{
    match pipeline.result() {
        Some(result) => {
            let action_key = if result.post_processed_text.is_some() {
                key
            } else {
                None
            };
            let mut commands: Vec<Command> = Vec::new();
            let ghost saved = history_record(pipeline.transcription@, result@, key);
            commands.push(
                Command::Save(
                    HistoryRecord {
                        transcription: pipeline.transcription,
                        post_processed_text: result.post_processed_text,
                        post_process_prompt: result.post_process_prompt,
                        action_key,
                    },
                ),
            );
            commands.push(Command::Paste(result.final_text));
            assert(commands_view(commands@) =~= seq![
                CommandView::Save(saved),
                CommandView::Paste(result@.final_text),
            ]);
            (Stage::Done, both(commands, restore_model_after_long_audio(original_model)))
        },
        None => (Stage::Processing { pipeline, original_model }, one(Command::Ask)),
    }
}

/// What the end of a release makes of the selected key: the key that is left,
/// and the session that takes it over.
pub open spec fn taken_over(
    action: TranscribeAction,
    selected: Option<u8>,
    apple_supported: bool,
) -> (Option<u8>, SessionView) {
    (
        None,
        SessionView {
            post_process: action.post_process,
            selected_action_key: selected,
            apple_supported,
            stage: StageView::Stopping,
        },
    )
}

impl TranscribeAction {
    /// The end of a release, once the effects of [`TranscribeAction::stop`] are
    /// done, so that no shortcut can select a key any more: reads and clears the
    /// selected key, and starts the session that uses it.
    pub fn begin_session(&self, selected: &mut ActiveActionState, apple_supported: bool) -> (session:
        Session)
        ensures
            (final(selected).0, session@) == taken_over(*self, old(selected).0, apple_supported),
    {
        let key = selected.take();
        Session::new(self, key, apple_supported)
    }
}

impl Session {
    /// Starts the session of a release: the recording is to be stopped.
    pub fn new(
        action: &TranscribeAction,
        selected_action_key: Option<u8>,
        apple_supported: bool,
    ) -> (session: Session)
        ensures
            session@ == (SessionView {
                post_process: action.post_process,
                selected_action_key,
                apple_supported,
                stage: StageView::Stopping,
            }),
    {
        Session {
            post_process: action.post_process,
            selected_action_key,
            apple_supported,
            stage: Stage::Stopping,
        }
    }

    /// The question that is to be put to a model.
    pub fn question(&self) -> (question: Option<&TextStep>)
        ensures
            match question {
                Some(step) => self@.stage is Processing && self@.stage->pipeline.step == step@,
                None => !(self@.stage is Processing),
            },
    {
        match &self.stage {
            Stage::Processing { pipeline, .. } => Some(&pipeline.step),
            _ => None,
        }
    }

    /// Takes note of an event, and says what is to be done then.
    pub fn step(self, event: SessionEvent) -> (next: (Session, Vec<Command>))
        ensures
            (next.0@, commands_view(next.1@)) == session_step(self@, event),
    {
        let Session { post_process, selected_action_key, apple_supported, stage } = self;
        let (stage, commands) = match (stage, event) {
            (Stage::Stopping, SessionEvent::NoSamples) => (Stage::Done, reset()),
            (
                Stage::Stopping,
                SessionEvent::Samples { settings, current_model, over_threshold },
            ) => match maybe_switch_model_for_long_audio(
                &current_model,
                &settings,
                over_threshold,
            ) {
                Some(model) => (
                    Stage::Switching { settings, current_model },
                    one(Command::SwitchModel(model)),
                ),
                None => (
                    Stage::Transcribing { settings, original_model: None },
                    one(Command::Transcribe),
                ),
            },
            (
                Stage::Switching { settings, current_model },
                SessionEvent::ModelTried { loaded },
            ) => (
                Stage::Transcribing {
                    settings,
                    original_model: long_audio_model_tried(current_model, loaded),
                },
                one(Command::Transcribe),
            ),
            (
                Stage::Transcribing { settings, original_model },
                SessionEvent::Transcribed(outcome),
            ) => match outcome {
                Ok(transcription) => if transcription.as_str().is_empty() {
                    (Stage::Done, both(reset(), restore_model_after_long_audio(original_model)))
                } else {
                    let action = match selected_action_key {
                        Some(key) => settings.action_for_key(key),
                        None => None,
                    };
                    let shown = if action.is_some() || post_process {
                        one(Command::Perform(Effect::ShowOverlay(Overlay::Processing)))
                    } else {
                        none()
                    };
                    let pipeline = build_processed_text(
                        &settings,
                        transcription.as_str(),
                        action,
                        post_process,
                        apple_supported,
                    );
                    let (stage, commands) = with_pipeline(
                        pipeline,
                        original_model,
                        selected_action_key,
                    );
                    (stage, both(shown, commands))
                },
                Err(_) => (
                    Stage::Done,
                    both(reset(), restore_model_after_long_audio(original_model)),
                ),
            },
            (Stage::Processing { pipeline, original_model }, SessionEvent::Replied(reply)) => {
                if pipeline.answered_by(&reply) {
                    with_pipeline(pipeline.advance(reply), original_model, selected_action_key)
                } else {
                    (Stage::Processing { pipeline, original_model }, none())
                }
            },
            (stage, _) => (stage, none()),
        };
        (Session { post_process, selected_action_key, apple_supported, stage }, commands)
    }
}

// ---------------------------------------------------------------------------
// Laws
// ---------------------------------------------------------------------------

/// Whether a session at this stage waits for an event of this kind.
pub open spec fn awaits(stage: StageView, event: SessionEvent) -> bool {
    match stage {
        StageView::Stopping => event is NoSamples || event is Samples,
        StageView::Switching { .. } => event is ModelTried,
        StageView::Transcribing { .. } => event is Transcribed,
        StageView::Processing { pipeline, .. } => event matches SessionEvent::Replied(reply)
            && pipeline::answers(reply, pipeline.step),
        StageView::Done => false,
    }
}

/// A stage that a session can reach: a model is being asked only while there is
/// no outcome.
pub open spec fn is_reachable(stage: StageView) -> bool {
    stage matches StageView::Processing { pipeline, .. } ==> pipeline::outcome(pipeline) is None
}

/// How many events a session may still need.
pub open spec fn events_left(stage: StageView) -> nat {
    match stage {
        StageView::Stopping => 5,
        StageView::Switching { .. } => 4,
        StageView::Transcribing { .. } => 3,
        StageView::Processing { pipeline, .. } => pipeline::questions_left(pipeline.step),
        StageView::Done => 0,
    }
}

/// The model that a session owes the user.
pub open spec fn owed_model(stage: StageView) -> Option<Seq<char>> {
    match stage {
        StageView::Transcribing { original_model, .. } => original_model,
        StageView::Processing { original_model, .. } => original_model,
        _ => None,
    }
}

/// At most five events end a session. Each event that it waits for brings the
/// end nearer; every other one changes nothing and asks for nothing.
pub proof fn law_session_ends(session: SessionView, event: SessionEvent)
    requires
        is_reachable(session.stage),
    ensures
        events_left(session.stage) <= 5,
        events_left(session.stage) == 0 <==> session.stage is Done,
        is_reachable(session_step(session, event).0.stage),
        awaits(session.stage, event) ==> events_left(session_step(session, event).0.stage)
            < events_left(session.stage),
        !awaits(session.stage, event) ==> session_step(session, event) == (
            session,
            Seq::<CommandView>::empty(),
        ),
{
    if let StageView::Processing { pipeline, .. } = session.stage {
        if let SessionEvent::Replied(reply) = event {
            pipeline::law_pipeline_ends(pipeline, reply);
        }
    }
}

/// A release leaves no key selected, and its session uses the key that was
/// selected before, whatever happens to it. So a key serves one release only:
/// the next one, without a new selection in between, uses none.
pub proof fn law_selected_key_serves_once(
    action: TranscribeAction,
    selected: Option<u8>,
    next_action: TranscribeAction,
    apple_supported: bool,
    events: Seq<SessionEvent>,
)
    ensures
        ({
            let (left, session) = taken_over(action, selected, apple_supported);
            let (_, next_session) = taken_over(next_action, left, apple_supported);
            &&& left is None
            &&& run(session, events).0.selected_action_key == selected
            &&& run(next_session, events).0.selected_action_key is None
        }),
{
    let (left, session) = taken_over(action, selected, apple_supported);
    lemma_run_keeps_key(session, events);
    lemma_run_keeps_key(taken_over(next_action, left, apple_supported).1, events);
}

proof fn lemma_run_keeps_key(session: SessionView, events: Seq<SessionEvent>)
    ensures
        run(session, events).0.selected_action_key == session.selected_action_key,
    decreases events.len(),
{
    if events.len() > 0 {
        lemma_run_keeps_key(session, events.drop_last());
    }
}

/// The model that was loaded before a switch is loaded again when the session
/// ends, as the last thing it does, however it ends; and no other model is.
pub proof fn law_model_restored(session: SessionView, event: SessionEvent)
    requires
        awaits(session.stage, event),
    ensures
        ({
            let owed = owed_model(session.stage);
            let (next, commands) = session_step(session, event);
            &&& next.stage is Done ==> match owed {
                Some(model) => commands.len() > 0 && commands.last() == CommandView::RestoreModel(
                    model,
                ) && !has_restore(commands.drop_last()),
                None => !has_restore(commands),
            }
            &&& !(next.stage is Done) ==> !has_restore(commands)
            &&& !(next.stage is Done) && !(session.stage is Switching) ==> owed_model(next.stage)
                == owed
            &&& session.stage matches StageView::Switching { current_model, .. } ==> (event matches
                SessionEvent::ModelTried { loaded } ==> owed_model(next.stage) == (if loaded {
                current_model
            } else {
                None
            }))
        }),
{
    let (next, commands) = session_step(session, event);
    if next.stage is Done {
        if let Some(model) = owed_model(session.stage) {
            assert(commands.last() == CommandView::RestoreModel(model));
            assert forall|i: int| 0 <= i < commands.drop_last().len() implies !(
            #[trigger] commands.drop_last()[i] is RestoreModel) by {}
        }
    }
}

/// Whether one of the commands loads the original model again.
pub open spec fn has_restore(commands: Seq<CommandView>) -> bool {
    exists|i: int| 0 <= i < commands.len() && (#[trigger] commands[i]) is RestoreModel
}

/// The model for long recordings is loaded only for a recording over the
/// threshold, and never where it is loaded already.
pub proof fn law_long_audio_switch(
    current_model: Option<Seq<char>>,
    long_audio_model: Option<Seq<char>>,
    over_threshold: bool,
)
    ensures
        long_audio_switch(current_model, long_audio_model, over_threshold) is Some
            <==> over_threshold && long_audio_model is Some && long_audio_model != current_model,
        long_audio_switch(current_model, long_audio_model, over_threshold) matches Some(model)
            ==> long_audio_model == Some(model),
{
}

/// Nothing is saved or pasted but at the end of a session whose recording gave a
/// text. Then the transcription is saved as it was made, and what is pasted next
/// is the text that is saved with it, or the transcription itself where there is
/// none. The key of an action is saved only with such a text.
pub proof fn law_saved_and_pasted(session: SessionView, event: SessionEvent)
    ensures
        ({
            let (next, commands) = session_step(session, event);
            forall|i: int|
                0 <= i < commands.len() ==> match #[trigger] commands[i] {
                    CommandView::Save(record) => {
                        &&& next.stage is Done
                        &&& i + 1 < commands.len()
                        &&& commands[i + 1] == CommandView::Paste(
                            match record.post_processed_text {
                                Some(changed) => changed,
                                None => record.transcription,
                            },
                        )
                        &&& record.action_key is Some ==> record.post_processed_text is Some
                            && record.action_key == session.selected_action_key
                        &&& session.stage is Transcribing ==> (event matches
                            SessionEvent::Transcribed(Ok(transcription)) && record.transcription
                            == transcription@ && transcription@.len() > 0)
                        &&& session.stage matches StageView::Processing { pipeline, .. }
                            ==> record.transcription == pipeline.transcription
                        &&& session.stage is Transcribing || session.stage is Processing
                    },
                    CommandView::Paste(_) => i > 0 && commands[i - 1] is Save,
                    _ => true,
                }
        }),
{
    if let StageView::Processing { pipeline, .. } = session.stage {
        if let SessionEvent::Replied(reply) = event {
            pipeline::law_result(pipeline::advanced(pipeline, reply));
        }
    }
    if let StageView::Transcribing { settings, .. } = session.stage {
        if let SessionEvent::Transcribed(Ok(transcription)) = event {
            pipeline::law_result(session_pipeline(session, settings, transcription@));
        }
    }
}

/// Whether a command puts an end to what the user is shown: a paste resets the
/// overlay and the icon too.
pub open spec fn is_closing(command: CommandView) -> bool {
    command is Paste || command == CommandView::Perform(Effect::SetTray(TrayIconState::Idle))
}

/// How many of the commands put an end to what the user is shown.
pub open spec fn closings(commands: Seq<CommandView>) -> nat
    decreases commands.len(),
{
    if commands.len() == 0 {
        0
    } else {
        closings(commands.drop_last()) + (if is_closing(commands.last()) {
            1nat
        } else {
            0nat
        })
    }
}

/// A session and all that it asked for, after each of `events` in turn.
pub open spec fn run(session: SessionView, events: Seq<SessionEvent>) -> (
    SessionView,
    Seq<CommandView>,
)
    decreases events.len(),
{
    if events.len() == 0 {
        (session, Seq::empty())
    } else {
        let (before, commands) = run(session, events.drop_last());
        let (after, more) = session_step(before, events.last());
        (after, commands + more)
    }
}

/// Once a session owes the user a model, it owes it until the end, and by then
/// it has asked for it to be loaded again, whatever happens.
pub proof fn law_owed_model_is_restored(
    session: SessionView,
    events: Seq<SessionEvent>,
    since: int,
    model: Seq<char>,
)
    requires
        0 <= since <= events.len(),
        owed_model(run(session, events.take(since)).0.stage) == Some(model),
    ensures
        ({
            let (end, commands) = run(session, events);
            if end.stage is Done {
                commands.contains(CommandView::RestoreModel(model))
            } else {
                owed_model(end.stage) == Some(model)
            }
        }),
    decreases events.len(),
{
    if since == events.len() {
        assert(events.take(since) =~= events);
    } else {
        let fewer = events.drop_last();
        let event = events.last();
        assert(fewer.take(since) =~= events.take(since));
        law_owed_model_is_restored(session, fewer, since, model);
        let (before, commands) = run(session, fewer);
        let (after, more) = session_step(before, event);
        let restore = CommandView::RestoreModel(model);
        if before.stage is Done {
            let i = commands.index_of(restore);
            assert((commands + more)[i] == restore);
        } else if awaits(before.stage, event) {
            law_model_restored(before, event);
            if after.stage is Done {
                assert((commands + more).last() == restore);
            }
        }
    }
}

/// Whatever happens to a session, the overlay and the icon are reset exactly
/// once: when it ends.
pub proof fn law_closed_once(session: SessionView, events: Seq<SessionEvent>)
    requires
        session.stage is Stopping,
    ensures
        closings(run(session, events).1) == (if run(session, events).0.stage is Done {
            1nat
        } else {
            0nat
        }),
    decreases events.len(),
{
    if events.len() > 0 {
        let fewer = events.drop_last();
        law_closed_once(session, fewer);
        let (before, commands) = run(session, fewer);
        let (after, more) = session_step(before, events.last());
        lemma_closings_concat(commands, more);
        lemma_closings_of_step(before, events.last());
    }
}

proof fn lemma_closings_concat(first: Seq<CommandView>, second: Seq<CommandView>)
    ensures
        closings(first + second) == closings(first) + closings(second),
    decreases second.len(),
{
    if second.len() == 0 {
        assert(first + second =~= first);
    } else {
        lemma_closings_concat(first, second.drop_last());
        assert((first + second).drop_last() =~= first + second.drop_last());
    }
}

proof fn lemma_closings_of_step(session: SessionView, event: SessionEvent)
    ensures
        closings(session_step(session, event).1) == (if session_step(session, event).0.stage is Done
            && !(session.stage is Done) {
            1nat
        } else {
            0nat
        }),
{
    let (next, commands) = session_step(session, event);
    let owed = owed_model(session.stage);
    lemma_closings_of_restore(owed);
    lemma_one_closing(CommandView::Ask);
    lemma_one_closing(CommandView::Transcribe);
    lemma_one_closing(CommandView::Perform(Effect::ShowOverlay(Overlay::Processing)));
    lemma_closings_of_reset();
    lemma_closings_concat(reset_commands(), restore_commands(owed));
    match (session.stage, event) {
        (
            StageView::Stopping,
            SessionEvent::Samples { settings, current_model, over_threshold },
        ) => {
            if let Some(model) = long_audio_switch(
                text::opt_text(current_model),
                text::opt_text(settings.long_audio_model),
                over_threshold,
            ) {
                lemma_one_closing(CommandView::SwitchModel(model));
            }
        },
        (
            StageView::Transcribing { settings, original_model },
            SessionEvent::Transcribed(outcome),
        ) => {
            if let Ok(transcription) = outcome {
                let pipeline = session_pipeline(session, settings, transcription@);
                lemma_closings_of_processed(session, pipeline, original_model);
                let more = processed(session, pipeline, original_model).1;
                lemma_closings_concat(
                    seq![CommandView::Perform(Effect::ShowOverlay(Overlay::Processing))],
                    more,
                );
                lemma_closings_concat(Seq::empty(), more);
            }
        },
        (StageView::Processing { pipeline, original_model }, SessionEvent::Replied(reply)) => {
            lemma_closings_of_processed(
                session,
                pipeline::advanced(pipeline, reply),
                original_model,
            );
        },
        _ => {},
    }
}

proof fn lemma_closings_of_processed(
    session: SessionView,
    pipeline: PipelineView,
    original_model: Option<Seq<char>>,
)
    ensures
        closings(processed(session, pipeline, original_model).1) == (if processed(
            session,
            pipeline,
            original_model,
        ).0.stage is Done {
            1nat
        } else {
            0nat
        }),
{
    lemma_one_closing(CommandView::Ask);
    if let Some(result) = pipeline::outcome(pipeline) {
        let save = CommandView::Save(
            history_record(pipeline.transcription, result, session.selected_action_key),
        );
        let paste = CommandView::Paste(result.final_text);
        lemma_one_closing(save);
        lemma_one_closing(paste);
        lemma_closings_concat(seq![save], seq![paste]);
        assert(seq![save, paste] =~= seq![save] + seq![paste]);
        lemma_closings_of_restore(original_model);
        lemma_closings_concat(seq![save, paste], restore_commands(original_model));
    }
}

proof fn lemma_one_closing(command: CommandView)
    ensures
        closings(seq![command]) == (if is_closing(command) {
            1nat
        } else {
            0nat
        }),
{
    assert(seq![command].drop_last() =~= Seq::empty());
    assert(closings(seq![command].drop_last()) == 0);
}

proof fn lemma_closings_of_restore(original_model: Option<Seq<char>>)
    ensures
        closings(restore_commands(original_model)) == 0,
{
    if let Some(model) = original_model {
        lemma_one_closing(CommandView::RestoreModel(model));
    }
}

proof fn lemma_closings_of_reset()
    ensures
        closings(reset_commands()) == 1,
{
    let hide = CommandView::Perform(Effect::HideOverlay);
    let idle = CommandView::Perform(Effect::SetTray(TrayIconState::Idle));
    lemma_one_closing(hide);
    lemma_one_closing(idle);
    lemma_closings_concat(seq![hide], seq![idle]);
    assert(reset_commands() =~= seq![hide] + seq![idle]);
}

/// Nothing that happens changes what the session was started with.
pub proof fn law_session_keeps_its_terms(session: SessionView, event: SessionEvent)
    ensures
        session_step(session, event).0.post_process == session.post_process,
        session_step(session, event).0.selected_action_key == session.selected_action_key,
        session_step(session, event).0.apple_supported == session.apple_supported,
{
}

/// A session starts with the terms of its action and waits for the recording to
/// stop.
pub proof fn law_session_start(
    action: TranscribeAction,
    selected: Option<u8>,
    apple_supported: bool,
)
    ensures
        ({
            let session = taken_over(action, selected, apple_supported).1;
            &&& session.post_process == action.post_process
            &&& session.selected_action_key == selected
            &&& session.apple_supported == apple_supported
            &&& session.stage == StageView::Stopping
        }),
{
}

/// A recording without samples only resets the overlay and the icon. One with
/// samples is transcribed, after the model for long recordings was loaded where
/// it is over the threshold and another model is in place; the settings of that
/// moment go along.
pub proof fn law_recording_stopped(
    session: SessionView,
    settings: AppSettings,
    current_model: Option<String>,
    over_threshold: bool,
)
    requires
        session.stage is Stopping,
    ensures
        session_step(session, SessionEvent::NoSamples).0.stage is Done,
        session_step(session, SessionEvent::NoSamples).1 == seq![
            CommandView::Perform(Effect::HideOverlay),
            CommandView::Perform(Effect::SetTray(TrayIconState::Idle)),
        ],
        ({
            let (next, commands) = session_step(
                session,
                SessionEvent::Samples { settings, current_model, over_threshold },
            );
            let current = match current_model {
                Some(model) => Some(model@),
                None => None,
            };
            let wanted = match settings.long_audio_model {
                Some(model) => Some(model@),
                None => None,
            };
            if over_threshold && wanted is Some && wanted != current {
                &&& next.stage == (StageView::Switching { settings, current_model: current })
                &&& commands == seq![CommandView::SwitchModel(wanted->0)]
            } else {
                &&& next.stage == (StageView::Transcribing { settings, original_model: None })
                &&& commands == seq![CommandView::Transcribe]
            }
        }),
{
}

/// The recording is transcribed whether the other model was loaded or not, under
/// the same settings; the former model is owed only where it was.
pub proof fn law_model_tried(
    session: SessionView,
    settings: AppSettings,
    current_model: Option<Seq<char>>,
    loaded: bool,
)
    requires
        session.stage == (StageView::Switching { settings, current_model }),
    ensures
        ({
            let (next, commands) = session_step(session, SessionEvent::ModelTried { loaded });
            &&& next.stage == (StageView::Transcribing {
                settings,
                original_model: if loaded {
                    current_model
                } else {
                    None
                },
            })
            &&& commands == seq![CommandView::Transcribe]
        }),
{
}

/// A transcription that failed or is empty only resets the overlay and the icon.
/// Every other one goes into the pipeline, with the action of the selected key,
/// under the settings of the session. The overlay says so exactly where an action
/// is selected or post-processing is wanted. A pipeline with an outcome is saved
/// and pasted at once; for every other one a model is asked.
pub proof fn law_transcribed(
    session: SessionView,
    settings: AppSettings,
    original_model: Option<Seq<char>>,
    content: String,
    reason: String,
)
    requires
        session.stage == (StageView::Transcribing { settings, original_model }),
    ensures
        ({
            let owed: Seq<CommandView> = match original_model {
                Some(model) => seq![CommandView::RestoreModel(model)],
                None => Seq::empty(),
            };
            let reset = seq![
                CommandView::Perform(Effect::HideOverlay),
                CommandView::Perform(Effect::SetTray(TrayIconState::Idle)),
            ];
            let action = match session.selected_action_key {
                Some(key) => settings::action_with_key(settings, key),
                None => None,
            };
            let shown: Seq<CommandView> = if action is Some || session.post_process {
                seq![CommandView::Perform(Effect::ShowOverlay(Overlay::Processing))]
            } else {
                Seq::empty()
            };
            let pipeline = pipeline::begun(
                settings,
                content@,
                crate::chinese::chinese_variant(settings.selected_language@, content@),
                action,
                session.post_process,
                session.apple_supported,
            );
            let (failed, after_failure) = session_step(
                session,
                SessionEvent::Transcribed(Err(reason)),
            );
            let (next, commands) = session_step(session, SessionEvent::Transcribed(Ok(content)));
            &&& failed.stage is Done && after_failure == reset + owed
            &&& content@.len() == 0 ==> next.stage is Done && commands == reset + owed
            &&& content@.len() > 0 ==> match pipeline::outcome(pipeline) {
                Some(result) => next.stage is Done && commands == shown + (seq![
                    CommandView::Save(
                        RecordView {
                            transcription: content@,
                            post_processed_text: result.post_processed_text,
                            post_process_prompt: result.post_process_prompt,
                            action_key: if result.post_processed_text is Some {
                                session.selected_action_key
                            } else {
                                None
                            },
                        },
                    ),
                    CommandView::Paste(result.final_text),
                ] + owed),
                None => next.stage == (StageView::Processing { pipeline, original_model })
                    && commands == shown + seq![CommandView::Ask],
            }
        }),
{
}

/// An answer to the question goes into the pipeline. Once that has an outcome,
/// the transcription is saved as it was made, with the outcome and, where the
/// text was changed, the selected key, and the final text is pasted; until then
/// the next question is asked.
pub proof fn law_replied(
    session: SessionView,
    pipeline: PipelineView,
    original_model: Option<Seq<char>>,
    reply: ModelReply,
)
    requires
        session.stage == (StageView::Processing { pipeline, original_model }),
        pipeline::answers(reply, pipeline.step),
    ensures
        ({
            let owed: Seq<CommandView> = match original_model {
                Some(model) => seq![CommandView::RestoreModel(model)],
                None => Seq::empty(),
            };
            let advanced = pipeline::advanced(pipeline, reply);
            let (next, commands) = session_step(session, SessionEvent::Replied(reply));
            match pipeline::outcome(advanced) {
                Some(result) => next.stage is Done && commands == seq![
                    CommandView::Save(
                        RecordView {
                            transcription: pipeline.transcription,
                            post_processed_text: result.post_processed_text,
                            post_process_prompt: result.post_process_prompt,
                            action_key: if result.post_processed_text is Some {
                                session.selected_action_key
                            } else {
                                None
                            },
                        },
                    ),
                    CommandView::Paste(result.final_text),
                ] + owed,
                None => next.stage == (StageView::Processing { pipeline: advanced, original_model })
                    && commands == seq![CommandView::Ask],
            }
        }),
{
}

/// The model of a list of commands holds each of them, in order, and what it
/// carries.
pub proof fn law_commands_view(commands: Seq<Command>, i: int)
    requires
        0 <= i < commands.len(),
    ensures
        commands_view(commands).len() == commands.len(),
        match commands[i] {
            Command::Perform(effect) => commands_view(commands)[i] == CommandView::Perform(effect),
            Command::SwitchModel(model) => commands_view(commands)[i] == CommandView::SwitchModel(
                model@,
            ),
            Command::Transcribe => commands_view(commands)[i] == CommandView::Transcribe,
            Command::Ask => commands_view(commands)[i] == CommandView::Ask,
            Command::Save(record) => commands_view(commands)[i] matches CommandView::Save(saved)
                && saved.transcription == record.transcription@ && saved.action_key
                == record.action_key && saved.post_processed_text == text::opt_text(
                record.post_processed_text,
            ) && saved.post_process_prompt == text::opt_text(record.post_process_prompt),
            Command::Paste(content) => commands_view(commands)[i] == CommandView::Paste(content@),
            Command::RestoreModel(model) => commands_view(commands)[i]
                == CommandView::RestoreModel(model@),
        },
{
}

}
