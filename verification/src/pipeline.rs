//! The way of a transcription to the text that is pasted: conversion to the
//! selected form of Chinese, then an action or post-processing.
use crate::chinese;
use crate::json;
use crate::post_process;
use crate::post_process::{StepView, TextStep};
use crate::settings;
use crate::settings::{clone_opt, AppSettings, PostProcessAction};
use crate::text;
use vstd::prelude::*;

verus! {

/// The outcome of the pipeline.
pub struct ProcessedTextResult {
    /// The text to paste.
    pub final_text: String,
    /// The text to paste, where a model made it or the conversion changed it.
    pub post_processed_text: Option<String>,
    /// The prompt that a model was given, where its answer is used.
    pub post_process_prompt: Option<String>,
}

/// The model of a [`ProcessedTextResult`].
#[verifier::ext_equal]
pub struct ResultView {
    pub final_text: Seq<char>,
    pub post_processed_text: Option<Seq<char>>,
    pub post_process_prompt: Option<Seq<char>>,
}

impl View for ProcessedTextResult {
    type V = ResultView;

    open spec fn view(&self) -> ResultView {
        ResultView {
            final_text: self.final_text@,
            post_processed_text: text::opt_text(self.post_processed_text),
            post_process_prompt: text::opt_text(self.post_process_prompt),
        }
    }
}

/// A transcription on its way.
pub struct TextPipeline {
    /// The transcription as it was made.
    pub transcription: String,
    /// The transcription in the selected form of Chinese.
    pub converted: String,
    /// The prompt that the models are given.
    pub prompt: Option<String>,
    /// What is to be done next.
    pub step: TextStep,
}

/// The model of a [`TextPipeline`].
#[verifier::ext_equal]
pub struct PipelineView {
    pub transcription: Seq<char>,
    pub converted: Seq<char>,
    pub prompt: Option<Seq<char>>,
    pub step: StepView,
}

impl View for TextPipeline {
    type V = PipelineView;

    open spec fn view(&self) -> PipelineView {
        PipelineView {
            transcription: self.transcription@,
            converted: self.converted@,
            prompt: text::opt_text(self.prompt),
            step: self.step@,
        }
    }
}

/// The answer to a question of the pipeline.
pub enum ModelReply {
    /// There is no model on the device at present.
    Unavailable,
    /// The model on the device answered or failed.
    Apple(Result<String, String>),
    /// A chat service answered, answered without content, or failed.
    Chat(Result<Option<String>, String>),
}

// ---------------------------------------------------------------------------
// Beginning
// ---------------------------------------------------------------------------

/// The first step: that of the selected action, or else that of post-processing,
/// where it is wanted.
pub open spec fn first_step(
    settings: AppSettings,
    converted: Seq<char>,
    selected_action: Option<PostProcessAction>,
    post_process: bool,
    apple_supported: bool,
) -> StepView {
    match selected_action {
        Some(action) => post_process::action_step(
            settings,
            converted,
            action.prompt@,
            text::opt_text(action.model),
            text::opt_text(action.provider_id),
            apple_supported,
        ),
        None => if post_process {
            post_process::post_process_step(settings, converted, apple_supported)
        } else {
            StepView::Finished(None)
        },
    }
}

/// The pipeline at its beginning, where `variant` is what the conversion made of
/// the transcription.
pub open spec fn begun(
    settings: AppSettings,
    transcription: Seq<char>,
    variant: Option<Seq<char>>,
    selected_action: Option<PostProcessAction>,
    post_process: bool,
    apple_supported: bool,
) -> PipelineView {
    let converted = match variant {
        Some(variant) => variant,
        None => transcription,
    };
    PipelineView {
        transcription,
        converted,
        prompt: match selected_action {
            Some(action) => Some(action.prompt@),
            None => settings::selected_prompt(settings),
        },
        step: first_step(settings, converted, selected_action, post_process, apple_supported),
    }
}

fn str_of(text: &Option<String>) -> (borrowed: Option<&str>)
    ensures
        text::opt_str(borrowed) == text::opt_text(*text),
{
    match text {
        Some(text) => Some(text.as_str()),
        None => None,
    }
}

/// Starts the pipeline on a transcription of which the conversion made
/// `variant`.
pub fn route_text(
    settings: &AppSettings,
    transcription: &str,
    variant: Option<String>,
    selected_action: Option<PostProcessAction>,
    post_process: bool,
    apple_supported: bool,
) -> (pipeline: TextPipeline)
    ensures
        pipeline@ == begun(
            *settings,
            transcription@,
            text::opt_text(variant),
            selected_action,
            post_process,
            apple_supported,
        ),
{
    let converted = match variant {
        Some(variant) => variant,
        None => transcription.to_string(),
    };
    let step = match &selected_action {
        Some(action) => post_process::process_action(
            settings,
            converted.as_str(),
            action.prompt.as_str(),
            str_of(&action.model),
            str_of(&action.provider_id),
            apple_supported,
        ),
        None => if post_process {
            post_process::post_process_transcription(
                settings,
                converted.as_str(),
                apple_supported,
            )
        } else {
            TextStep::Finished(None)
        },
    };
    let prompt = match selected_action {
        Some(action) => Some(action.prompt),
        None => settings.selected_prompt(),
    };
    TextPipeline { transcription: transcription.to_string(), converted, prompt, step }
}

/// Starts the pipeline on a transcription.
pub fn build_processed_text(
    settings: &AppSettings,
    transcription: &str,
    selected_action: Option<PostProcessAction>,
    post_process: bool,
    apple_supported: bool,
) -> (pipeline: TextPipeline)
    ensures
        pipeline@ == begun(
            *settings,
            transcription@,
            chinese::chinese_variant(settings.selected_language@, transcription@),
            selected_action,
            post_process,
            apple_supported,
        ),
{
    let variant = chinese::maybe_convert_chinese_variant(settings, transcription);
    route_text(
        settings,
        transcription,
        variant,
        selected_action,
        post_process,
        apple_supported,
    )
}

// ---------------------------------------------------------------------------
// Answers
// ---------------------------------------------------------------------------

/// Whether a reply answers the question of a step.
pub open spec fn answers(reply: ModelReply, step: StepView) -> bool {
    match step {
        StepView::Finished(_) => false,
        StepView::AskApple { .. } => !(reply is Chat),
        _ => reply is Chat,
    }
}

/// The step that follows a reply. A reply to another question changes nothing.
pub open spec fn next_step(step: StepView, reply: ModelReply) -> StepView {
    match (step, reply) {
        (StepView::AskApple { .. }, ModelReply::Unavailable) => StepView::Finished(None),
        (StepView::AskApple { .. }, ModelReply::Apple(reply)) => StepView::Finished(
            post_process::apple_result(text::result_view(reply)),
        ),
        (StepView::AskAction(_), ModelReply::Chat(reply)) => StepView::Finished(
            post_process::action_result(text::reply_view(reply)),
        ),
        (
            StepView::AskStructured { fallback, .. },
            ModelReply::Chat(reply),
        ) => post_process::structured_step(text::reply_view(reply), fallback),
        (StepView::AskLegacy(_), ModelReply::Chat(reply)) => StepView::Finished(
            post_process::legacy_result(text::reply_view(reply)),
        ),
        _ => step,
    }
}

/// The pipeline after a reply.
pub open spec fn advanced(pipeline: PipelineView, reply: ModelReply) -> PipelineView {
    PipelineView { step: next_step(pipeline.step, reply), ..pipeline }
}

/// What the pipeline comes to: what a model made of the text, or else the
/// converted text.
pub open spec fn outcome(pipeline: PipelineView) -> Option<ResultView> {
    match pipeline.step {
        StepView::Finished(Some(processed)) => Some(
            ResultView {
                final_text: processed,
                post_processed_text: Some(processed),
                post_process_prompt: pipeline.prompt,
            },
        ),
        StepView::Finished(None) => Some(
            ResultView {
                final_text: pipeline.converted,
                post_processed_text: if pipeline.converted != pipeline.transcription {
                    Some(pipeline.converted)
                } else {
                    None
                },
                post_process_prompt: None,
            },
        ),
        _ => None,
    }
}

impl TextPipeline {
    /// Whether a reply answers the question of the pipeline.
    pub fn answered_by(&self, reply: &ModelReply) -> (answered: bool)
        ensures
            answered == answers(*reply, self@.step),
    {
        match (&self.step, reply) {
            (TextStep::Finished(_), _) => false,
            (TextStep::AskApple { .. }, ModelReply::Chat(_)) => false,
            (TextStep::AskApple { .. }, _) => true,
            (_, ModelReply::Chat(_)) => true,
            _ => false,
        }
    }

    /// Takes the answer to the question of the pipeline.
    pub fn advance(self, reply: ModelReply) -> (next: TextPipeline)
        ensures
            next@ == advanced(self@, reply),
    {
        let TextPipeline { transcription, converted, prompt, step } = self;
        let step = match (step, reply) {
            (TextStep::AskApple { .. }, ModelReply::Unavailable) => TextStep::Finished(None),
            (TextStep::AskApple { .. }, ModelReply::Apple(reply)) => TextStep::Finished(
                post_process::apple_outcome(reply),
            ),
            (TextStep::AskAction(_), ModelReply::Chat(reply)) => TextStep::Finished(
                post_process::action_outcome(reply),
            ),
            (
                TextStep::AskStructured { fallback, .. },
                ModelReply::Chat(reply),
            ) => post_process::structured_outcome(reply, fallback),
            (TextStep::AskLegacy(_), ModelReply::Chat(reply)) => TextStep::Finished(
                post_process::legacy_outcome(reply),
            ),
            (step, _) => step,
        };
        TextPipeline { transcription, converted, prompt, step }
    }

    /// The outcome, once there is nothing left to ask.
    pub fn result(&self) -> (result: Option<ProcessedTextResult>)
        ensures
            match result {
                Some(result) => outcome(self@) == Some(result@),
                None => outcome(self@) is None,
            },
    {
        match &self.step {
            TextStep::Finished(Some(processed)) => Some(
                ProcessedTextResult {
                    final_text: processed.clone(),
                    post_processed_text: Some(processed.clone()),
                    post_process_prompt: clone_opt(&self.prompt),
                },
            ),
            TextStep::Finished(None) => {
                let changed = !text::same_text(
                    self.converted.as_str(),
                    self.transcription.as_str(),
                );
                Some(
                    ProcessedTextResult {
                        final_text: self.converted.clone(),
                        post_processed_text: if changed {
                            Some(self.converted.clone())
                        } else {
                            None
                        },
                        post_process_prompt: None,
                    },
                )
            },
            _ => None,
        }
    }
}

// ---------------------------------------------------------------------------
// Laws
// ---------------------------------------------------------------------------

/// How many answers the pipeline may still need.
pub open spec fn questions_left(step: StepView) -> nat {
    match step {
        StepView::Finished(_) => 0,
        StepView::AskStructured { .. } => 2,
        _ => 1,
    }
}

/// Whether nothing came of a question.
pub open spec fn is_failure(reply: ModelReply) -> bool {
    match reply {
        ModelReply::Unavailable => true,
        ModelReply::Apple(reply) => reply is Err,
        ModelReply::Chat(reply) => !(reply matches Ok(Some(_))),
    }
}

/// The pipeline after each of `replies` in turn.
pub open spec fn after_all(pipeline: PipelineView, replies: Seq<ModelReply>) -> PipelineView
    decreases replies.len(),
{
    if replies.len() == 0 {
        pipeline
    } else {
        advanced(after_all(pipeline, replies.drop_last()), replies.last())
    }
}

/// At most two answers end the pipeline. Each answer to the question that was
/// asked brings the end nearer, another reply changes nothing, and there is an
/// outcome exactly at the end.
pub proof fn law_pipeline_ends(pipeline: PipelineView, reply: ModelReply)
    ensures
        questions_left(pipeline.step) <= 2,
        answers(reply, pipeline.step) ==> questions_left(advanced(pipeline, reply).step)
            < questions_left(pipeline.step),
        !answers(reply, pipeline.step) ==> advanced(pipeline, reply) == pipeline,
        outcome(pipeline) is Some <==> questions_left(pipeline.step) == 0,
{
}

/// A finished pipeline stays as it is, and so does its outcome.
pub proof fn law_outcome_is_final(pipeline: PipelineView, reply: ModelReply)
    requires
        outcome(pipeline) is Some,
    ensures
        advanced(pipeline, reply) == pipeline,
        outcome(advanced(pipeline, reply)) == outcome(pipeline),
{
}

/// Without an action and without post-processing nobody is asked, and the
/// outcome is the converted text.
pub proof fn law_nothing_asked(
    settings: AppSettings,
    transcription: Seq<char>,
    variant: Option<Seq<char>>,
    apple_supported: bool,
)
    ensures
        ({
            let pipeline = begun(settings, transcription, variant, None, false, apple_supported);
            outcome(pipeline) == Some(
                ResultView {
                    final_text: pipeline.converted,
                    post_processed_text: if pipeline.converted != transcription {
                        Some(pipeline.converted)
                    } else {
                        None
                    },
                    post_process_prompt: None,
                },
            )
        }),
{
}

/// Where every model fails, the outcome is the converted text, and no prompt is
/// recorded: no failure loses the transcription.
pub proof fn law_failures_keep_text(
    settings: AppSettings,
    transcription: Seq<char>,
    variant: Option<Seq<char>>,
    selected_action: Option<PostProcessAction>,
    post_process: bool,
    apple_supported: bool,
    replies: Seq<ModelReply>,
)
    requires
        forall|i: int| 0 <= i < replies.len() ==> is_failure(#[trigger] replies[i]),
    ensures
        ({
            let start = begun(
                settings,
                transcription,
                variant,
                selected_action,
                post_process,
                apple_supported,
            );
            outcome(after_all(start, replies)) matches Some(result) ==> result.final_text
                == start.converted && result.post_process_prompt is None && (
            result.post_processed_text is Some <==> start.converted != transcription)
        }),
{
    let start = begun(
        settings,
        transcription,
        variant,
        selected_action,
        post_process,
        apple_supported,
    );
    lemma_failures(start, replies);
}

proof fn lemma_failures(start: PipelineView, replies: Seq<ModelReply>)
    requires
        !(start.step matches StepView::Finished(Some(_))),
        forall|i: int| 0 <= i < replies.len() ==> is_failure(#[trigger] replies[i]),
    ensures
        !(after_all(start, replies).step matches StepView::Finished(Some(_))),
        after_all(start, replies).transcription == start.transcription,
        after_all(start, replies).converted == start.converted,
    decreases replies.len(),
{
    if replies.len() > 0 {
        let fewer = replies.drop_last();
        assert forall|i: int| 0 <= i < fewer.len() implies is_failure(#[trigger] fewer[i]) by {
            assert(fewer[i] == replies[i]);
        }
        lemma_failures(start, fewer);
        assert(is_failure(replies[replies.len() - 1]));
    }
}

/// Whatever the models answer, a text that one of them made holds no invisible
/// character, and is recorded with the prompt that was selected at the
/// beginning.
pub proof fn law_processed_text(
    settings: AppSettings,
    transcription: Seq<char>,
    variant: Option<Seq<char>>,
    selected_action: Option<PostProcessAction>,
    post_process: bool,
    apple_supported: bool,
    replies: Seq<ModelReply>,
)
    ensures
        ({
            let start = begun(
                settings,
                transcription,
                variant,
                selected_action,
                post_process,
                apple_supported,
            );
            let end = after_all(start, replies);
            end.step matches StepView::Finished(Some(processed)) ==> {
                &&& forall|i: int|
                    0 <= i < processed.len() ==> !post_process::is_invisible(
                        #[trigger] processed[i],
                    )
                &&& outcome(end) == Some(
                    ResultView {
                        final_text: processed,
                        post_processed_text: Some(processed),
                        post_process_prompt: start.prompt,
                    },
                )
            }
        }),
{
    let start = begun(
        settings,
        transcription,
        variant,
        selected_action,
        post_process,
        apple_supported,
    );
    lemma_processed(start, replies);
    if let StepView::Finished(Some(processed)) = after_all(start, replies).step {
        post_process::law_visible(processed, Seq::empty());
    }
}

proof fn lemma_processed(start: PipelineView, replies: Seq<ModelReply>)
    requires
        !(start.step matches StepView::Finished(Some(_))),
    ensures
        after_all(start, replies).step matches StepView::Finished(Some(processed)) ==> processed
            == post_process::visible(processed),
        after_all(start, replies).prompt == start.prompt,
    decreases replies.len(),
{
    if replies.len() > 0 {
        let before = after_all(start, replies.drop_last());
        let reply = replies.last();
        lemma_processed(start, replies.drop_last());
        match (before.step, reply) {
            (StepView::AskApple { .. }, ModelReply::Apple(Ok(content))) => {
                post_process::law_visible(content@, Seq::empty());
            },
            (StepView::AskAction(_), ModelReply::Chat(Ok(Some(content)))) => {
                post_process::law_visible(content@, Seq::empty());
            },
            (StepView::AskLegacy(_), ModelReply::Chat(Ok(Some(content)))) => {
                post_process::law_visible(content@, Seq::empty());
            },
            (StepView::AskStructured { .. }, ModelReply::Chat(Ok(Some(content)))) => {
                post_process::law_visible(content@, Seq::empty());
                if let Some(document) = json::json_document(content@) {
                    if let Some(found) = json::json_text_field(
                        document,
                        post_process::TRANSCRIPTION_FIELD@,
                    ) {
                        post_process::law_visible(found, Seq::empty());
                    }
                }
            },
            _ => {},
        }
    }
}

/// The text to paste is the recorded text, or the transcription itself where
/// none is recorded; a prompt is recorded only with a text.
pub proof fn law_result(pipeline: PipelineView)
    ensures
        outcome(pipeline) matches Some(result) ==> {
            &&& result.final_text == match result.post_processed_text {
                Some(processed) => processed,
                None => pipeline.transcription,
            }
            &&& result.post_process_prompt is Some ==> result.post_processed_text is Some
        },
{
}

/// Whatever is asked at the beginning, by an action or by post-processing, is
/// asked about the converted text: the first step, and the prompt that may be
/// recorded, are those of a transcription that is the converted text already.
/// The transcription itself is kept for the record.
pub proof fn law_asked_about_converted_text(
    settings: AppSettings,
    transcription: Seq<char>,
    variant: Seq<char>,
    selected_action: Option<PostProcessAction>,
    post_process: bool,
    apple_supported: bool,
)
    ensures
        ({
            let pipeline = begun(
                settings,
                transcription,
                Some(variant),
                selected_action,
                post_process,
                apple_supported,
            );
            let direct = begun(
                settings,
                variant,
                None,
                selected_action,
                post_process,
                apple_supported,
            );
            let unconverted = begun(
                settings,
                transcription,
                None,
                selected_action,
                post_process,
                apple_supported,
            );
            &&& pipeline.step == direct.step
            &&& pipeline.prompt == direct.prompt
            &&& pipeline.converted == variant
            &&& direct.converted == variant
            &&& pipeline.transcription == transcription
            &&& unconverted.transcription == transcription
            &&& unconverted.converted == transcription
        }),
{
}

/// A selected action is asked with its own prompt, model and provider about the
/// text, whether post-processing is wanted or not. Without an action,
/// post-processing is asked exactly where it is wanted.
pub proof fn law_first_question(
    settings: AppSettings,
    content: Seq<char>,
    action: PostProcessAction,
    post_process: bool,
    apple_supported: bool,
)
    ensures
        begun(settings, content, None, Some(action), post_process, apple_supported).step
            == post_process::action_step(
            settings,
            content,
            action.prompt@,
            match action.model {
                Some(model) => Some(model@),
                None => None,
            },
            match action.provider_id {
                Some(id) => Some(id@),
                None => None,
            },
            apple_supported,
        ),
        begun(settings, content, None, None, true, apple_supported).step
            == post_process::post_process_step(settings, content, apple_supported),
        begun(settings, content, None, None, false, apple_supported).step == StepView::Finished(
            None,
        ),
        begun(settings, content, None, Some(action), post_process, apple_supported).prompt == Some(
            action.prompt@,
        ),
        begun(settings, content, None, None, post_process, apple_supported).prompt
            == settings::selected_prompt(settings),
{
}

/// How an answer is read depends on the question: each kind of question has its
/// own reading, and only a structured question can lead to another one. Nothing
/// else about the pipeline changes.
pub proof fn law_answer_is_read(pipeline: PipelineView, reply: ModelReply)
    ensures
        ({
            let next = advanced(pipeline, reply);
            &&& next.transcription == pipeline.transcription
            &&& next.converted == pipeline.converted
            &&& next.prompt == pipeline.prompt
            &&& pipeline.step is AskApple && reply is Unavailable ==> next.step
                == StepView::Finished(None)
            &&& reply matches ModelReply::Apple(Ok(content)) ==> (pipeline.step is AskApple
                ==> next.step == StepView::Finished(
                if text::trimmed(content@).len() > 0 {
                    Some(post_process::visible(content@))
                } else {
                    None
                },
            ))
            &&& reply matches ModelReply::Apple(Err(_)) ==> (pipeline.step is AskApple ==> next.step
                == StepView::Finished(None))
            &&& reply matches ModelReply::Chat(Ok(Some(content))) ==> {
                &&& pipeline.step is AskAction ==> next.step == StepView::Finished(
                    if content@.len() > 0 {
                        Some(post_process::visible(content@))
                    } else {
                        None
                    },
                )
                &&& pipeline.step is AskLegacy ==> next.step == StepView::Finished(
                    Some(post_process::visible(content@)),
                )
                &&& pipeline.step matches StepView::AskStructured { fallback, .. } ==> match
                json::json_document(content@) {
                    Some(document) => next.step == StepView::Finished(
                        Some(
                            match json::json_text_field(document, "transcription"@) {
                                Some(found) => post_process::visible(found),
                                None => post_process::visible(content@),
                            },
                        ),
                    ),
                    None => next.step == StepView::AskLegacy(fallback),
                }
            }
            &&& reply matches ModelReply::Chat(Ok(None)) ==> (!(pipeline.step is Finished)
                && !(pipeline.step is AskApple) ==> next.step == StepView::Finished(None))
            &&& reply matches ModelReply::Chat(Err(_)) ==> {
                &&& pipeline.step is AskAction || pipeline.step is AskLegacy ==> next.step
                    == StepView::Finished(None)
                &&& pipeline.step matches StepView::AskStructured { fallback, .. } ==> next.step
                    == StepView::AskLegacy(fallback)
            }
        }),
{
    if let ModelReply::Apple(Ok(content)) = reply {
        text::lemma_blank_iff_trimmed_empty(content@);
    }
}

/// What a finished pipeline comes to. The text of a model is pasted and recorded
/// with its prompt; without one, the converted text is pasted, and recorded
/// without a prompt exactly where it is not the transcription.
pub proof fn law_outcome(pipeline: PipelineView, made: Seq<char>)
    ensures
        pipeline.step == StepView::Finished(Some(made)) ==> (outcome(pipeline) matches Some(result)
            && result.final_text == made && result.post_processed_text == Some(made)
            && result.post_process_prompt == pipeline.prompt),
        pipeline.step == StepView::Finished(None) ==> (outcome(pipeline) matches Some(result)
            && result.final_text == pipeline.converted && result.post_process_prompt is None && (
        result.post_processed_text is None <==> pipeline.converted == pipeline.transcription) && (
        result.post_processed_text is Some ==> result.post_processed_text == Some(
            pipeline.converted,
        ))),
        !(pipeline.step is Finished) ==> outcome(pipeline) is None,
{
}

}
