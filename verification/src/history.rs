//! The history of transcriptions: its settings, and transcribing an entry anew.
use crate::settings::{AppSettings, RecordingRetentionPeriod};
use crate::text;
use vstd::prelude::*;

verus! {

// ---------------------------------------------------------------------------
// Paths
// ---------------------------------------------------------------------------

/// `std::path::PathBuf`, a path of the file system.
#[verifier::external_type_specification]
#[verifier::external_body]
pub struct ExPathBuf(std::path::PathBuf);

/// The text of a path, where it is Unicode.
pub uninterp spec fn path_text(path: &std::path::PathBuf) -> Option<Seq<char>>;

/// `Path::to_str` returns the text of a path, and `None` where the path is not
/// Unicode.
#[verifier::external_body]
fn text_of_path(path: &std::path::PathBuf) -> (found: Option<&str>)
    ensures
        text::opt_str(found) == path_text(path),
{
    path.to_str()
}

/// The text of a path, or the message that refuses it.
pub open spec fn path_result(path: Option<Seq<char>>) -> Result<Seq<char>, Seq<char>> {
    match path {
        Some(path) => Ok(path),
        None => Err("Invalid file path"@),
    }
}

/// Takes the text of a path, or says that the path is not valid.
pub fn text_or_invalid(path: Option<&str>) -> (outcome: Result<String, String>)
    ensures
        text::result_view(outcome) == path_result(text::opt_str(path)),
{
    match path {
        Some(path) => Ok(path.to_string()),
        None => Err("Invalid file path".to_string()),
    }
}

/// Writes a path as a text.
pub fn path_to_string(path: &std::path::PathBuf) -> (outcome: Result<String, String>)
    ensures
        text::result_view(outcome) == path_result(path_text(path)),
{
    text_or_invalid(text_of_path(path))
}

/// The text of the path of a recording, where it was found.
pub fn get_audio_file_path(found: Result<std::path::PathBuf, String>) -> (outcome: Result<
    String,
    String,
>)
    ensures
        match found {
            Ok(path) => text::result_view(outcome) == path_result(path_text(&path)),
            Err(message) => outcome == Err::<String, String>(message),
        },
{
    match found {
        Ok(path) => path_to_string(&path),
        Err(message) => Err(message),
    }
}

// ---------------------------------------------------------------------------
// Settings
// ---------------------------------------------------------------------------

/// The name of a retention period.
pub open spec fn period_name(period: RecordingRetentionPeriod) -> Seq<char> {
    match period {
        RecordingRetentionPeriod::Never => "never"@,
        RecordingRetentionPeriod::PreserveLimit => "preserve_limit"@,
        RecordingRetentionPeriod::Days3 => "days3"@,
        RecordingRetentionPeriod::Weeks2 => "weeks2"@,
        RecordingRetentionPeriod::Months3 => "months3"@,
    }
}

/// Whether some retention period has this name.
pub open spec fn is_period_name(name: Seq<char>) -> bool {
    ||| name == period_name(RecordingRetentionPeriod::Never)
    ||| name == period_name(RecordingRetentionPeriod::PreserveLimit)
    ||| name == period_name(RecordingRetentionPeriod::Days3)
    ||| name == period_name(RecordingRetentionPeriod::Weeks2)
    ||| name == period_name(RecordingRetentionPeriod::Months3)
}

/// No two retention periods have the same name.
pub proof fn law_period_names(first: RecordingRetentionPeriod, second: RecordingRetentionPeriod)
    ensures
        period_name(first) == period_name(second) ==> first == second,
        is_period_name(period_name(first)),
{
    reveal_strlit("never");
    reveal_strlit("preserve_limit");
    reveal_strlit("days3");
    reveal_strlit("weeks2");
    reveal_strlit("months3");
    assert("never"@.len() == 5 && "never"@[0] == 'n');
    assert("preserve_limit"@.len() == 14);
    assert("days3"@.len() == 5 && "days3"@[0] == 'd');
    assert("weeks2"@.len() == 6);
    assert("months3"@.len() == 7);
}

/// Finds a retention period by its name.
pub fn parse_recording_retention_period(period: &str) -> (outcome: Result<
    RecordingRetentionPeriod,
    String,
>)
    ensures
        match outcome {
            Ok(found) => period_name(found) == period@,
            Err(message) => !is_period_name(period@) && message@ == "Invalid retention period: "@
                + period@,
        },
{
    if text::same_text(period, "never") {
        Ok(RecordingRetentionPeriod::Never)
    } else if text::same_text(period, "preserve_limit") {
        Ok(RecordingRetentionPeriod::PreserveLimit)
    } else if text::same_text(period, "days3") {
        Ok(RecordingRetentionPeriod::Days3)
    } else if text::same_text(period, "weeks2") {
        Ok(RecordingRetentionPeriod::Weeks2)
    } else if text::same_text(period, "months3") {
        Ok(RecordingRetentionPeriod::Months3)
    } else {
        Err(text::join2("Invalid retention period: ", period))
    }
}

/// Sets how many entries the history keeps. The other settings stay as they are.
pub fn update_history_limit(settings: &mut AppSettings, limit: usize)
    ensures
        *final(settings) == (AppSettings { history_limit: limit, ..*old(settings) }),
{
    settings.history_limit = limit;
}

/// Sets how long recordings are kept, by the name of the period. The other
/// settings stay as they are, and all of them where no period has that name.
pub fn update_recording_retention_period(settings: &mut AppSettings, period: &str) -> (outcome:
    Result<(), String>)
    ensures
        match outcome {
            Ok(()) => is_period_name(period@) && period_name(
                final(settings).recording_retention_period,
            ) == period@ && *final(settings) == (AppSettings {
                recording_retention_period: final(settings).recording_retention_period,
                ..*old(settings)
            }),
            Err(message) => !is_period_name(period@) && message@ == "Invalid retention period: "@
                + period@ && *final(settings) == *old(settings),
        },
{
    match parse_recording_retention_period(period) {
        Ok(found) => {
            settings.recording_retention_period = found;
            Ok(())
        },
        Err(message) => Err(message),
    }
}

// ---------------------------------------------------------------------------
// Transcribing an entry anew
// ---------------------------------------------------------------------------

/// What is to be done next to transcribe an entry anew.
pub enum ReprocessCommand {
    /// Look the entry up.
    FindEntry(i64),
    /// Find the recording of this name.
    FindAudio(String),
    /// Read the samples of the recording, and the id of the loaded model.
    ReadAudio,
    /// Load this model.
    LoadModel(String),
    /// Transcribe the samples.
    Transcribe,
    /// Write the new text, and the name of the model, to the entry.
    UpdateEntry { id: i64, new_text: String, model_name: Option<String> },
    /// Load the model of `restore`, where there is one, whatever comes of it, and
    /// return the outcome.
    Finish { restore: Option<String>, outcome: Result<String, String> },
}

/// The model of a [`ReprocessCommand`].
#[verifier::ext_equal]
pub enum ReprocessCommandView {
    FindEntry(i64),
    FindAudio(Seq<char>),
    ReadAudio,
    LoadModel(Seq<char>),
    Transcribe,
    UpdateEntry { id: i64, new_text: Seq<char>, model_name: Option<Seq<char>> },
    Finish { restore: Option<Seq<char>>, outcome: Result<Seq<char>, Seq<char>> },
}

impl View for ReprocessCommand {
    type V = ReprocessCommandView;

    open spec fn view(&self) -> ReprocessCommandView {
        match self {
            ReprocessCommand::FindEntry(id) => ReprocessCommandView::FindEntry(*id),
            ReprocessCommand::FindAudio(file_name) => ReprocessCommandView::FindAudio(file_name@),
            ReprocessCommand::ReadAudio => ReprocessCommandView::ReadAudio,
            ReprocessCommand::LoadModel(model_id) => ReprocessCommandView::LoadModel(model_id@),
            ReprocessCommand::Transcribe => ReprocessCommandView::Transcribe,
            ReprocessCommand::UpdateEntry {
                id,
                new_text,
                model_name,
            } => ReprocessCommandView::UpdateEntry {
                id: *id,
                new_text: new_text@,
                model_name: text::opt_text(*model_name),
            },
            ReprocessCommand::Finish { restore, outcome } => ReprocessCommandView::Finish {
                restore: text::opt_text(*restore),
                outcome: text::result_view(*outcome),
            },
        }
    }
}

/// How far transcribing anew has come: which command is being carried out.
pub enum ReprocessStage {
    FindingEntry,
    FindingAudio,
    ReadingAudio,
    LoadingModel { previous_model: Option<String> },
    Transcribing { previous_model: Option<String> },
    Updating { previous_model: Option<String>, new_text: String },
    Finished,
}

/// The model of a [`ReprocessStage`].
#[verifier::ext_equal]
pub enum ReprocessStageView {
    FindingEntry,
    FindingAudio,
    ReadingAudio,
    LoadingModel { previous_model: Option<Seq<char>> },
    Transcribing { previous_model: Option<Seq<char>> },
    Updating { previous_model: Option<Seq<char>>, new_text: Seq<char> },
    Finished,
}

impl View for ReprocessStage {
    type V = ReprocessStageView;

    open spec fn view(&self) -> ReprocessStageView {
        match self {
            ReprocessStage::FindingEntry => ReprocessStageView::FindingEntry,
            ReprocessStage::FindingAudio => ReprocessStageView::FindingAudio,
            ReprocessStage::ReadingAudio => ReprocessStageView::ReadingAudio,
            ReprocessStage::LoadingModel { previous_model } => ReprocessStageView::LoadingModel {
                previous_model: text::opt_text(*previous_model),
            },
            ReprocessStage::Transcribing { previous_model } => ReprocessStageView::Transcribing {
                previous_model: text::opt_text(*previous_model),
            },
            ReprocessStage::Updating { previous_model, new_text } => ReprocessStageView::Updating {
                previous_model: text::opt_text(*previous_model),
                new_text: new_text@,
            },
            ReprocessStage::Finished => ReprocessStageView::Finished,
        }
    }
}

/// An entry on its way to a new text.
pub struct Reprocess {
    pub id: i64,
    pub model_id: String,
    pub stage: ReprocessStage,
}

/// The model of a [`Reprocess`].
#[verifier::ext_equal]
pub struct ReprocessView {
    pub id: i64,
    pub model_id: Seq<char>,
    pub stage: ReprocessStageView,
}

impl View for Reprocess {
    type V = ReprocessView;

    open spec fn view(&self) -> ReprocessView {
        ReprocessView { id: self.id, model_id: self.model_id@, stage: self.stage@ }
    }
}

/// What came of a command.
pub enum ReprocessEvent {
    /// The name of the recording of the entry, where there is such an entry.
    Entry(Result<Option<String>, String>),
    /// Whether the recording exists.
    Audio(Result<bool, String>),
    /// The samples were read; `current_model` is the id of the loaded model.
    Samples { read: Result<(), String>, current_model: Option<String> },
    /// The model was loaded.
    ModelLoaded(Result<(), String>),
    /// The samples were transcribed; `model_name` is the name of the model.
    Transcribed { outcome: Result<String, String>, model_name: Option<String> },
    /// The entry was updated.
    Updated(Result<(), String>),
}

/// The next stage with its command.
pub open spec fn goes_on(
    work: ReprocessView,
    stage: ReprocessStageView,
    command: ReprocessCommandView,
) -> (ReprocessView, Option<ReprocessCommandView>) {
    (ReprocessView { stage, ..work }, Some(command))
}

/// The end with an error. No model is loaded again.
pub open spec fn fails(work: ReprocessView, message: Seq<char>) -> (
    ReprocessView,
    Option<ReprocessCommandView>,
) {
    goes_on(
        work,
        ReprocessStageView::Finished,
        ReprocessCommandView::Finish { restore: None, outcome: Err(message) },
    )
}

/// The model to load again once an entry has its new text: the previous one,
/// where it is another than the one that was used.
pub open spec fn previous_to_restore(previous_model: Option<Seq<char>>, model_id: Seq<char>) -> Option<
    Seq<char>,
> {
    if previous_model == Some(model_id) {
        None
    } else {
        previous_model
    }
}

/// What an event makes of the work on an entry, and what is to be done then. An
/// event that is not waited for changes nothing.
pub open spec fn reprocess_step(work: ReprocessView, event: ReprocessEvent) -> (
    ReprocessView,
    Option<ReprocessCommandView>,
) {
    match (work.stage, event) {
        (ReprocessStageView::FindingEntry, ReprocessEvent::Entry(found)) => match found {
            Ok(Some(file_name)) => goes_on(
                work,
                ReprocessStageView::FindingAudio,
                ReprocessCommandView::FindAudio(file_name@),
            ),
            Ok(None) => fails(work, "History entry not found"@),
            Err(message) => fails(work, message@),
        },
        (ReprocessStageView::FindingAudio, ReprocessEvent::Audio(found)) => match found {
            Ok(true) => goes_on(
                work,
                ReprocessStageView::ReadingAudio,
                ReprocessCommandView::ReadAudio,
            ),
            Ok(false) => fails(work, "Audio file not found"@),
            Err(message) => fails(work, message@),
        },
        (
            ReprocessStageView::ReadingAudio,
            ReprocessEvent::Samples { read, current_model },
        ) => match read {
            Ok(()) => goes_on(
                work,
                ReprocessStageView::LoadingModel { previous_model: text::opt_text(current_model) },
                ReprocessCommandView::LoadModel(work.model_id),
            ),
            Err(message) => fails(work, message@),
        },
        (
            ReprocessStageView::LoadingModel { previous_model },
            ReprocessEvent::ModelLoaded(outcome),
        ) => match outcome {
            Ok(()) => goes_on(
                work,
                ReprocessStageView::Transcribing { previous_model },
                ReprocessCommandView::Transcribe,
            ),
            Err(message) => fails(work, message@),
        },
        (
            ReprocessStageView::Transcribing { previous_model },
            ReprocessEvent::Transcribed { outcome, model_name },
        ) => match outcome {
            Ok(new_text) => goes_on(
                work,
                ReprocessStageView::Updating { previous_model, new_text: new_text@ },
                ReprocessCommandView::UpdateEntry {
                    id: work.id,
                    new_text: new_text@,
                    model_name: text::opt_text(model_name),
                },
            ),
            Err(message) => fails(work, message@),
        },
        (
            ReprocessStageView::Updating { previous_model, new_text },
            ReprocessEvent::Updated(outcome),
        ) => match outcome {
            Ok(()) => goes_on(
                work,
                ReprocessStageView::Finished,
                ReprocessCommandView::Finish {
                    restore: previous_to_restore(previous_model, work.model_id),
                    outcome: Ok(new_text),
                },
            ),
            Err(message) => fails(work, message@),
        },
        _ => (work, None),
    }
}

/// The model of an optional command.
pub open spec fn command_view(command: Option<ReprocessCommand>) -> Option<ReprocessCommandView> {
    match command {
        Some(command) => Some(command@),
        None => None,
    }
}

/// Starts to transcribe the entry `id` anew with the model `model_id`.
pub fn reprocess_history_entry(id: i64, model_id: String) -> (begun: (Reprocess, ReprocessCommand))
    ensures
        begun.0@ == (ReprocessView {
            id,
            model_id: model_id@,
            stage: ReprocessStageView::FindingEntry,
        }),
        begun.1@ == ReprocessCommandView::FindEntry(id),
{
    (
        Reprocess { id, model_id, stage: ReprocessStage::FindingEntry },
        ReprocessCommand::FindEntry(id),
    )
}

fn failed(message: String) -> (next: (ReprocessStage, Option<ReprocessCommand>))
    ensures
        next.0@ == ReprocessStageView::Finished,
        command_view(next.1) == Some(
            ReprocessCommandView::Finish { restore: None, outcome: Err(message@) },
        ),
{
    (
        ReprocessStage::Finished,
        Some(ReprocessCommand::Finish { restore: None, outcome: Err(message) }),
    )
}

impl Reprocess {
    /// Takes note of what came of a command, and says what is to be done then.
    pub fn step(self, event: ReprocessEvent) -> (next: (Reprocess, Option<ReprocessCommand>))
        ensures
            (next.0@, command_view(next.1)) == reprocess_step(self@, event),
    {
        let Reprocess { id, model_id, stage } = self;
        let (stage, command) = match (stage, event) {
            (ReprocessStage::FindingEntry, ReprocessEvent::Entry(found)) => match found {
                Ok(Some(file_name)) => (
                    ReprocessStage::FindingAudio,
                    Some(ReprocessCommand::FindAudio(file_name)),
                ),
                Ok(None) => failed("History entry not found".to_string()),
                Err(message) => failed(message),
            },
            (ReprocessStage::FindingAudio, ReprocessEvent::Audio(found)) => match found {
                Ok(true) => (ReprocessStage::ReadingAudio, Some(ReprocessCommand::ReadAudio)),
                Ok(false) => failed("Audio file not found".to_string()),
                Err(message) => failed(message),
            },
            (
                ReprocessStage::ReadingAudio,
                ReprocessEvent::Samples { read, current_model },
            ) => match read {
                Ok(()) => (
                    ReprocessStage::LoadingModel { previous_model: current_model },
                    Some(ReprocessCommand::LoadModel(model_id.clone())),
                ),
                Err(message) => failed(message),
            },
            (
                ReprocessStage::LoadingModel { previous_model },
                ReprocessEvent::ModelLoaded(outcome),
            ) => match outcome {
                Ok(()) => (
                    ReprocessStage::Transcribing { previous_model },
                    Some(ReprocessCommand::Transcribe),
                ),
                Err(message) => failed(message),
            },
            (
                ReprocessStage::Transcribing { previous_model },
                ReprocessEvent::Transcribed { outcome, model_name },
            ) => match outcome {
                Ok(new_text) => (
                    ReprocessStage::Updating { previous_model, new_text: new_text.clone() },
                    Some(ReprocessCommand::UpdateEntry { id, new_text, model_name }),
                ),
                Err(message) => failed(message),
            },
            (
                ReprocessStage::Updating { previous_model, new_text },
                ReprocessEvent::Updated(outcome),
            ) => match outcome {
                Ok(()) => {
                    let restore = match previous_model {
                        Some(previous) => if text::same_text(
                            previous.as_str(),
                            model_id.as_str(),
                        ) {
                            None
                        } else {
                            Some(previous)
                        },
                        None => None,
                    };
                    (
                        ReprocessStage::Finished,
                        Some(ReprocessCommand::Finish { restore, outcome: Ok(new_text) }),
                    )
                },
                Err(message) => failed(message),
            },
            (stage, _) => (stage, None),
        };
        (Reprocess { id, model_id, stage }, command)
    }
}

// ---------------------------------------------------------------------------
// Laws
// ---------------------------------------------------------------------------

/// How many events the work on an entry may still need.
pub open spec fn reprocess_events_left(stage: ReprocessStageView) -> nat {
    match stage {
        ReprocessStageView::FindingEntry => 6,
        ReprocessStageView::FindingAudio => 5,
        ReprocessStageView::ReadingAudio => 4,
        ReprocessStageView::LoadingModel { .. } => 3,
        ReprocessStageView::Transcribing { .. } => 2,
        ReprocessStageView::Updating { .. } => 1,
        ReprocessStageView::Finished => 0,
    }
}

/// At most six events end the work on an entry: each that leads to a command
/// brings the end nearer, and every other one changes nothing. It ends with
/// exactly one outcome.
pub proof fn law_reprocess_ends(work: ReprocessView, event: ReprocessEvent)
    ensures
        reprocess_events_left(work.stage) <= 6,
        ({
            let (next, command) = reprocess_step(work, event);
            &&& command is Some ==> reprocess_events_left(next.stage) < reprocess_events_left(
                work.stage,
            )
            &&& command is None ==> next == work
            &&& (command matches Some(ReprocessCommandView::Finish { .. })) <==> (next.stage
                is Finished && !(work.stage is Finished))
            &&& next.id == work.id && next.model_id == work.model_id
        }),
{
}

/// Only an entry that has its new text counts as a success, and only then the
/// previous model is loaded again, unless it is the one that was used.
pub proof fn law_reprocess_outcome(work: ReprocessView, event: ReprocessEvent)
    ensures
        reprocess_step(work, event).1 matches Some(
            ReprocessCommandView::Finish { restore, outcome },
        ) ==> {
            &&& outcome matches Ok(new_text) ==> event matches ReprocessEvent::Updated(Ok(()))
                && work.stage matches ReprocessStageView::Updating {
                previous_model,
                new_text: written,
            } && new_text == written && (restore is Some <==> previous_model is Some
                && previous_model != Some(work.model_id)) && (restore is Some ==> restore
                == previous_model)
            &&& outcome is Err ==> restore is None
        },
{
}

/// The text that is reported in the end is the one that was written to the
/// entry, and it was written to the entry that was asked for.
pub proof fn law_reprocess_text(work: ReprocessView, transcribed: ReprocessEvent, written: ReprocessEvent)
    requires
        work.stage is Transcribing,
    ensures
        ({
            let (updating, update) = reprocess_step(work, transcribed);
            let (_, end) = reprocess_step(updating, written);
            update matches Some(ReprocessCommandView::UpdateEntry { id, new_text, .. }) ==> {
                &&& id == work.id
                &&& end matches Some(ReprocessCommandView::Finish { outcome, .. }) ==> (outcome
                    matches Ok(reported) ==> reported == new_text)
            }
        }),
{
}

/// The text of a path is handed on as it is; a path without one is refused.
pub proof fn law_path_result(path: Seq<char>)
    ensures
        path_result(Some(path)) == Ok::<Seq<char>, Seq<char>>(path),
        path_result(None) == Err::<Seq<char>, Seq<char>>("Invalid file path"@),
{
}

/// The names of the five retention periods, and of no others.
pub proof fn law_five_periods(name: Seq<char>)
    ensures
        period_name(RecordingRetentionPeriod::Never) == "never"@,
        period_name(RecordingRetentionPeriod::PreserveLimit) == "preserve_limit"@,
        period_name(RecordingRetentionPeriod::Days3) == "days3"@,
        period_name(RecordingRetentionPeriod::Weeks2) == "weeks2"@,
        period_name(RecordingRetentionPeriod::Months3) == "months3"@,
        is_period_name(name) <==> name == "never"@ || name == "preserve_limit"@ || name == "days3"@
            || name == "weeks2"@ || name == "months3"@,
{
}

/// How an entry gets its new text, where nothing fails: its recording is found
/// and read, the wanted model loaded, the recording transcribed, and the text
/// written to the entry with the name of the model. Then it is reported, and the
/// model that was loaded before is loaded again, where it is another one.
pub proof fn law_reprocess_course(
    work: ReprocessView,
    file_name: String,
    current_model: Option<String>,
    new_text: String,
    model_name: Option<String>,
    previous_model: Option<Seq<char>>,
    written: Seq<char>,
)
    ensures
        work.stage is FindingEntry ==> reprocess_step(
            work,
            ReprocessEvent::Entry(Ok(Some(file_name))),
        ) == (
            ReprocessView { stage: ReprocessStageView::FindingAudio, ..work },
            Some(ReprocessCommandView::FindAudio(file_name@)),
        ),
        work.stage is FindingAudio ==> reprocess_step(work, ReprocessEvent::Audio(Ok(true))) == (
            ReprocessView { stage: ReprocessStageView::ReadingAudio, ..work },
            Some(ReprocessCommandView::ReadAudio),
        ),
        work.stage is ReadingAudio ==> reprocess_step(
            work,
            ReprocessEvent::Samples { read: Ok(()), current_model },
        ) == (
            ReprocessView {
                stage: ReprocessStageView::LoadingModel {
                    previous_model: match current_model {
                        Some(model) => Some(model@),
                        None => None,
                    },
                },
                ..work
            },
            Some(ReprocessCommandView::LoadModel(work.model_id)),
        ),
        work.stage == (ReprocessStageView::LoadingModel { previous_model }) ==> reprocess_step(
            work,
            ReprocessEvent::ModelLoaded(Ok(())),
        ) == (
            ReprocessView { stage: ReprocessStageView::Transcribing { previous_model }, ..work },
            Some(ReprocessCommandView::Transcribe),
        ),
        work.stage == (ReprocessStageView::Transcribing { previous_model }) ==> reprocess_step(
            work,
            ReprocessEvent::Transcribed { outcome: Ok(new_text), model_name },
        ) == (
            ReprocessView {
                stage: ReprocessStageView::Updating { previous_model, new_text: new_text@ },
                ..work
            },
            Some(
                ReprocessCommandView::UpdateEntry {
                    id: work.id,
                    new_text: new_text@,
                    model_name: match model_name {
                        Some(name) => Some(name@),
                        None => None,
                    },
                },
            ),
        ),
        work.stage == (ReprocessStageView::Updating { previous_model, new_text: written })
            ==> reprocess_step(work, ReprocessEvent::Updated(Ok(()))) == (
            ReprocessView { stage: ReprocessStageView::Finished, ..work },
            Some(
                ReprocessCommandView::Finish {
                    restore: if previous_model is Some && previous_model != Some(work.model_id) {
                        previous_model
                    } else {
                        None
                    },
                    outcome: Ok(written),
                },
            ),
        ),
{
}

/// What goes wrong on the way is what is reported, and nothing else is done: the
/// entry or the recording that does not exist, or the message of whatever failed.
pub proof fn law_reprocess_failures(work: ReprocessView, message: String, other: Option<String>)
    ensures
        ({
            let ends_with = |event: ReprocessEvent, told: Seq<char>|
                reprocess_step(work, event) == (
                    ReprocessView { stage: ReprocessStageView::Finished, ..work },
                    Some(ReprocessCommandView::Finish { restore: None, outcome: Err(told) }),
                );
            &&& work.stage is FindingEntry ==> ends_with(
                ReprocessEvent::Entry(Ok(None)),
                "History entry not found"@,
            ) && ends_with(ReprocessEvent::Entry(Err(message)), message@)
            &&& work.stage is FindingAudio ==> ends_with(
                ReprocessEvent::Audio(Ok(false)),
                "Audio file not found"@,
            ) && ends_with(ReprocessEvent::Audio(Err(message)), message@)
            &&& work.stage is ReadingAudio ==> ends_with(
                ReprocessEvent::Samples { read: Err(message), current_model: other },
                message@,
            )
            &&& work.stage is LoadingModel ==> ends_with(
                ReprocessEvent::ModelLoaded(Err(message)),
                message@,
            )
            &&& work.stage is Transcribing ==> ends_with(
                ReprocessEvent::Transcribed { outcome: Err(message), model_name: other },
                message@,
            )
            &&& work.stage is Updating ==> ends_with(
                ReprocessEvent::Updated(Err(message)),
                message@,
            )
        }),
{
}

}
