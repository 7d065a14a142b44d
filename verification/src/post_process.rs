//! Post-processing of a transcription by a language model.
//!
//! The functions of this module decide which question is put to which model, and
//! what is made of the answer. Asking is left to the caller.
use crate::json;
use crate::llm_client;
use crate::llm_client::{send_chat_completion_with_schema, ChatDispatch};
use crate::settings;
use crate::settings::{
    get_or_empty, AppSettings, PostProcessProvider, APPLE_INTELLIGENCE_PROVIDER_ID,
};
use crate::text;
use vstd::prelude::*;

verus! {

/// Name of the field that holds the text in a structured answer.
pub const TRANSCRIPTION_FIELD: &'static str = "transcription";

/// The place in a prompt at which the transcription is put.
pub const OUTPUT_PLACEHOLDER: &'static str = "${output}";

/// What the model is told before it is given the text of an action.
pub const ACTION_SYSTEM_PROMPT: &'static str =
    "You are a text processing assistant. Output ONLY the final processed text. Do not add any explanation, commentary, preamble, or formatting such as markdown code blocks. Just output the raw result text, nothing else.";

// ---------------------------------------------------------------------------
// Texts
// ---------------------------------------------------------------------------

/// The characters without width that some models insert.
pub open spec fn is_invisible(c: char) -> bool {
    c == '\u{200B}' || c == '\u{200C}' || c == '\u{200D}' || c == '\u{FEFF}'
}

/// The characters of `source` that can be seen, in their order.
pub open spec fn visible(source: Seq<char>) -> Seq<char> {
    source.filter(|c: char| !is_invisible(c))
}

/// Removes the invisible characters that some models insert.
pub fn strip_invisible_chars(s: &str) -> (stripped: String)
    ensures
        stripped@ == visible(s@),
{
    let chars = text::chars_of(s);
    let mut stripped = String::new();
    let ghost keep = |c: char| !is_invisible(c);
    let mut i: usize = 0;
    proof {
        reveal(Seq::filter);
        assert(chars@.take(0) =~= Seq::empty());
    }
    while i < chars.len()
        invariant
            i <= chars@.len(),
            keep == |c: char| !is_invisible(c),
            stripped@ == chars@.take(i as int).filter(keep),
        decreases chars@.len() - i,
    {
        let c = chars[i];
        proof {
            reveal(Seq::filter);
            assert(chars@.take(i + 1).drop_last() =~= chars@.take(i as int));
        }
        if c != '\u{200B}' && c != '\u{200C}' && c != '\u{200D}' && c != '\u{FEFF}' {
            stripped.push(c);
        }
        i += 1;
    }
    assert(chars@.take(i as int) =~= chars@);
    stripped
}

/// A stripped text holds no invisible character and every visible one, in order;
/// stripping it again changes nothing, and neither does stripping a text without
/// invisible characters. Texts may be stripped piece by piece.
pub proof fn law_visible(first: Seq<char>, second: Seq<char>)
    ensures
        forall|i: int|
            0 <= i < visible(first).len() ==> !is_invisible(#[trigger] visible(first)[i]),
        visible(visible(first)) == visible(first),
        (forall|i: int| 0 <= i < first.len() ==> !is_invisible(#[trigger] first[i])) ==> visible(
            first,
        ) == first,
        visible(first + second) == visible(first) + visible(second),
        forall|c: char| !is_invisible(c) ==> (first.contains(c) <==> visible(first).contains(c)),
{
    lemma_visible(first);
    lemma_visible_unchanged(first);
    lemma_visible_unchanged(visible(first));
    lemma_visible_concat(first, second);
}

proof fn lemma_visible(source: Seq<char>)
    ensures
        forall|i: int|
            0 <= i < visible(source).len() ==> !is_invisible(#[trigger] visible(source)[i]),
        forall|c: char|
            !is_invisible(c) ==> (source.contains(c) <==> visible(source).contains(c)),
    decreases source.len(),
{
    reveal(Seq::filter);
    if source.len() > 0 {
        let front = source.drop_last();
        lemma_visible(front);
        assert forall|c: char| !is_invisible(c) implies (source.contains(c) <==> visible(
            source,
        ).contains(c)) by {
            if source.contains(c) {
                let i = source.index_of(c);
                if i < front.len() {
                    assert(front[i] == c);
                    assert(front.contains(c));
                    let j = visible(front).index_of(c);
                    assert(visible(source)[j] == c);
                } else {
                    assert(visible(source).last() == c);
                }
            }
            if visible(source).contains(c) {
                let j = visible(source).index_of(c);
                if j < visible(front).len() {
                    assert(visible(front)[j] == c);
                    assert(front.contains(c));
                    let i = front.index_of(c);
                    assert(source[i] == c);
                } else {
                    assert(source.last() == c);
                }
            }
        }
    }
}

proof fn lemma_visible_unchanged(source: Seq<char>)
    ensures
        (forall|i: int| 0 <= i < source.len() ==> !is_invisible(#[trigger] source[i])) ==> visible(
            source,
        ) == source,
    decreases source.len(),
{
    reveal(Seq::filter);
    if source.len() > 0 && forall|i: int|
        0 <= i < source.len() ==> !is_invisible(#[trigger] source[i]) {
        let front = source.drop_last();
        assert forall|i: int| 0 <= i < front.len() implies !is_invisible(#[trigger] front[i]) by {
            assert(front[i] == source[i]);
        }
        lemma_visible_unchanged(front);
        assert(source =~= front.push(source.last()));
    }
}

proof fn lemma_visible_concat(first: Seq<char>, second: Seq<char>)
    ensures
        visible(first + second) == visible(first) + visible(second),
    decreases second.len(),
{
    reveal(Seq::filter);
    if second.len() == 0 {
        assert(first + second =~= first);
        assert(visible(first) + visible(second) =~= visible(first));
    } else {
        lemma_visible_concat(first, second.drop_last());
        assert((first + second).drop_last() =~= first + second.drop_last());
        assert(visible(first + second) =~= visible(first) + visible(second));
    }
}

/// The system prompt of a template: the template without its placeholders and
/// without white space around it.
pub open spec fn system_prompt_of(template: Seq<char>) -> Seq<char> {
    text::trimmed(text::replaced(template, OUTPUT_PLACEHOLDER@, Seq::empty()))
}

/// Builds the system prompt out of a prompt template. The placeholder is
/// removed: the transcription is sent as the message of the user.
pub fn build_system_prompt(prompt_template: &str) -> (system_prompt: String)
    ensures
        system_prompt@ == system_prompt_of(prompt_template@),
        system_prompt@ == text::trimmed(
            text::joined(text::pieces(prompt_template@, "${output}"@), Seq::empty()),
        ),
{
    proof {
        law_system_prompt(prompt_template@);
        reveal_strlit("${output}");
        reveal_strlit("");
        assert(""@ =~= Seq::empty());
    }
    let bare = text::replace_all(prompt_template, OUTPUT_PLACEHOLDER, "");
    text::trim(bare.as_str())
}

/// The system prompt is what stands between the placeholders of the template,
/// put together and trimmed. It holds no placeholder, unless putting the pieces
/// together has made a new one. A template without placeholders is only trimmed.
pub proof fn law_system_prompt(template: Seq<char>)
    ensures
        template == text::joined(
            text::pieces(template, OUTPUT_PLACEHOLDER@),
            OUTPUT_PLACEHOLDER@,
        ),
        system_prompt_of(template) == text::trimmed(
            text::joined(text::pieces(template, OUTPUT_PLACEHOLDER@), Seq::empty()),
        ),
        !text::has_pattern(
            text::joined(text::pieces(template, OUTPUT_PLACEHOLDER@), Seq::empty()),
            OUTPUT_PLACEHOLDER@,
        ) ==> !text::has_pattern(system_prompt_of(template), OUTPUT_PLACEHOLDER@),
        !text::has_pattern(template, OUTPUT_PLACEHOLDER@) ==> system_prompt_of(template)
            == text::trimmed(template),
{
    reveal_strlit("${output}");
    text::law_replaced(template, OUTPUT_PLACEHOLDER@, Seq::empty());
    text::lemma_trimmed_pattern(
        text::replaced(template, OUTPUT_PLACEHOLDER@, Seq::empty()),
        OUTPUT_PLACEHOLDER@,
    );
}

// ---------------------------------------------------------------------------
// Apple Intelligence
// ---------------------------------------------------------------------------

/// A question to the model on the device.
pub struct AppleRequest {
    pub system_prompt: String,
    pub user_content: String,
    pub token_limit: i32,
}

/// The model of an [`AppleRequest`].
#[verifier::ext_equal]
pub struct AppleView {
    pub system_prompt: Seq<char>,
    pub user_content: Seq<char>,
    pub token_limit: i32,
}

impl View for AppleRequest {
    type V = AppleView;

    open spec fn view(&self) -> AppleView {
        AppleView {
            system_prompt: self.system_prompt@,
            user_content: self.user_content@,
            token_limit: self.token_limit,
        }
    }
}

/// The token limit that a model name stands for: the number that it writes, and
/// no limit, written as zero, where it writes none.
pub open spec fn token_limit_of(model: Seq<char>) -> int {
    match text::decimal_i32(text::trimmed(model)) {
        Some(limit) => limit,
        None => 0,
    }
}

/// Prepares a question to the model on the device. `None` where that model is
/// not available.
pub fn call_apple_intelligence(
    available: bool,
    system_prompt: &str,
    user_content: &str,
    model: &str,
) -> (request: Option<AppleRequest>)
    ensures
        request is Some <==> available,
        request matches Some(request) ==> request@ == (AppleView {
            system_prompt: system_prompt@,
            user_content: user_content@,
            token_limit: token_limit_of(model@) as i32,
        }),
{
    if !available {
        return None;
    }
    let number = text::trim(model);
    let token_limit: i32 = match text::parse_i32(number.as_str()) {
        Some(limit) => limit,
        None => 0,
    };
    Some(
        AppleRequest {
            system_prompt: system_prompt.to_string(),
            user_content: user_content.to_string(),
            token_limit,
        },
    )
}

/// What an answer of the model on the device comes to: a blank answer and a
/// failure come to nothing.
pub open spec fn apple_result(reply: Result<Seq<char>, Seq<char>>) -> Option<Seq<char>> {
    match reply {
        Ok(content) => if text::is_blank(content) {
            None
        } else {
            Some(visible(content))
        },
        Err(_) => None,
    }
}

/// Reads the answer of the model on the device.
pub fn apple_outcome(reply: Result<String, String>) -> (outcome: Option<String>)
    ensures
        text::opt_text(outcome) == apple_result(text::result_view(reply)),
        match reply {
            Ok(content) => if text::trimmed(content@).len() == 0 {
                outcome is None
            } else {
                outcome matches Some(found) && found@ == visible(content@)
            },
            Err(_) => outcome is None,
        },
{
    match reply {
        Ok(content) => if text::blank(content.as_str()) {
            None
        } else {
            Some(strip_invisible_chars(content.as_str()))
        },
        Err(_) => None,
    }
}

// ---------------------------------------------------------------------------
// Questions
// ---------------------------------------------------------------------------

/// A question to a chat service.
#[derive(Clone)]
pub struct ChatCall {
    pub provider: PostProcessProvider,
    pub api_key: String,
    pub model: String,
    pub user_content: String,
    pub system_prompt: Option<String>,
    pub json_schema: Option<serde_json::Value>,
}

/// The model of a [`ChatCall`].
#[verifier::ext_equal]
pub struct ChatCallView {
    pub provider: PostProcessProvider,
    pub api_key: Seq<char>,
    pub model: Seq<char>,
    pub user_content: Seq<char>,
    pub system_prompt: Option<Seq<char>>,
    pub json_schema: Option<json::JsonView>,
}

impl View for ChatCall {
    type V = ChatCallView;

    open spec fn view(&self) -> ChatCallView {
        ChatCallView {
            provider: self.provider,
            api_key: self.api_key@,
            model: self.model@,
            user_content: self.user_content@,
            system_prompt: text::opt_text(self.system_prompt),
            json_schema: match self.json_schema {
                Some(schema) => Some(json::json_view(schema)),
                None => None,
            },
        }
    }
}

impl ChatCall {
    /// Prepares the request that puts the question to its provider.
    pub fn dispatch(self) -> (outcome: Result<ChatDispatch, String>)
        ensures
            llm_client::dispatch_view(outcome) == llm_client::chat_dispatch(
                self@.provider,
                self@.api_key,
                self@.model,
                self@.user_content,
                self@.system_prompt,
                self@.json_schema,
            ),
            self.json_schema matches Some(schema) ==> (outcome matches Ok(
                ChatDispatch::Http { body, .. },
            ) ==> (body.response_format matches Some(format) && format.json_schema.schema
                == schema)),
    {
        send_chat_completion_with_schema(
            &self.provider,
            self.api_key,
            self.model.as_str(),
            self.user_content,
            self.system_prompt,
            self.json_schema,
        )
    }
}

/// What is to be done next with a transcription.
pub enum TextStep {
    /// Nothing more: this is what the model made of it, if anything.
    Finished(Option<String>),
    /// Ask the model on the device.
    AskApple { system_prompt: String, user_content: String, model: String },
    /// Ask a chat service on behalf of an action.
    AskAction(ChatCall),
    /// Ask for a structured answer, and ask `fallback` where that fails.
    AskStructured { call: ChatCall, fallback: ChatCall },
    /// Ask for a plain answer.
    AskLegacy(ChatCall),
}

/// The model of a [`TextStep`].
#[verifier::ext_equal]
pub enum StepView {
    Finished(Option<Seq<char>>),
    AskApple { system_prompt: Seq<char>, user_content: Seq<char>, model: Seq<char> },
    AskAction(ChatCallView),
    AskStructured { call: ChatCallView, fallback: ChatCallView },
    AskLegacy(ChatCallView),
}

impl View for TextStep {
    type V = StepView;

    open spec fn view(&self) -> StepView {
        match self {
            TextStep::Finished(outcome) => StepView::Finished(text::opt_text(*outcome)),
            TextStep::AskApple { system_prompt, user_content, model } => StepView::AskApple {
                system_prompt: system_prompt@,
                user_content: user_content@,
                model: model@,
            },
            TextStep::AskAction(call) => StepView::AskAction(call@),
            TextStep::AskStructured { call, fallback } => StepView::AskStructured {
                call: call@,
                fallback: fallback@,
            },
            TextStep::AskLegacy(call) => StepView::AskLegacy(call@),
        }
    }
}

/// The shape of a structured answer: an object with the one text field
/// `transcription` and nothing else.
pub open spec fn transcription_schema_view() -> json::JsonView {
    json::JsonView::Object(
        map![
            "type"@ => json::JsonView::Text("object"@),
            "properties"@ => json::JsonView::Object(
                map![
                    TRANSCRIPTION_FIELD@ => json::JsonView::Object(
                        map![
                            "type"@ => json::JsonView::Text("string"@),
                            "description"@ => json::JsonView::Text(
                                "The cleaned and processed transcription text"@,
                            ),
                        ],
                    ),
                ],
            ),
            "required"@ => json::JsonView::Array(seq![json::JsonView::Text(TRANSCRIPTION_FIELD@)]),
            "additionalProperties"@ => json::JsonView::Bool(false),
        ],
    )
}

/// Builds the schema of a structured answer.
pub fn transcription_schema() -> (schema: serde_json::Value)
    ensures
        json::json_view(schema) == transcription_schema_view(),
{
    proof {
        reveal_with_fuel(json::fields_view, 5);
        reveal_strlit("type");
        reveal_strlit("description");
        reveal_strlit("properties");
        reveal_strlit("required");
        reveal_strlit("additionalProperties");
        assert("type"@.len() == 4 && "description"@.len() == 11 && "properties"@.len() == 10
            && "required"@.len() == 8 && "additionalProperties"@.len() == 20);
    }
    let mut field: Vec<(String, serde_json::Value)> = Vec::new();
    field.push(("type".to_string(), json::string("string".to_string())));
    field.push(
        (
            "description".to_string(),
            json::string("The cleaned and processed transcription text".to_string()),
        ),
    );
    let ghost field_view = map![
        "type"@ => json::JsonView::Text("string"@),
        "description"@ => json::JsonView::Text("The cleaned and processed transcription text"@),
    ];
    assert(json::fields_view(field@) =~= field_view) by {
        assert(field@.drop_last().drop_last() =~= Seq::empty());
    }
    let mut properties: Vec<(String, serde_json::Value)> = Vec::new();
    properties.push((TRANSCRIPTION_FIELD.to_string(), json::object(field)));
    assert(json::fields_view(properties@) =~= map![
        TRANSCRIPTION_FIELD@ => json::JsonView::Object(field_view),
    ]) by {
        assert(properties@.drop_last() =~= Seq::empty());
    }
    let mut required: Vec<serde_json::Value> = Vec::new();
    required.push(json::string(TRANSCRIPTION_FIELD.to_string()));
    assert(json::json_views(required@) =~= seq![json::JsonView::Text(TRANSCRIPTION_FIELD@)]);
    let mut schema: Vec<(String, serde_json::Value)> = Vec::new();
    schema.push(("type".to_string(), json::string("object".to_string())));
    schema.push(("properties".to_string(), json::object(properties)));
    schema.push(("required".to_string(), json::array(required)));
    schema.push(("additionalProperties".to_string(), json::boolean(false)));
    proof {
        let s4 = schema@;
        let s3 = s4.drop_last();
        let s2 = s3.drop_last();
        let s1 = s2.drop_last();
        assert(s1.drop_last() =~= Seq::empty());
        assert(json::JsonView::Object(json::fields_view(s4)) == transcription_schema_view());
    }
    json::object(schema)
}

/// The plain question: the prompt with the transcription in place of the
/// placeholder.
pub open spec fn legacy_call(
    provider: PostProcessProvider,
    api_key: Seq<char>,
    model: Seq<char>,
    prompt: Seq<char>,
    transcription: Seq<char>,
) -> ChatCallView {
    ChatCallView {
        provider,
        api_key,
        model,
        user_content: text::replaced(prompt, OUTPUT_PLACEHOLDER@, transcription),
        system_prompt: None,
        json_schema: None,
    }
}

/// The structured question: the prompt as the system prompt, the transcription
/// as the message of the user, and the shape of the answer.
pub open spec fn structured_call(
    provider: PostProcessProvider,
    api_key: Seq<char>,
    model: Seq<char>,
    prompt: Seq<char>,
    transcription: Seq<char>,
) -> ChatCallView {
    ChatCallView {
        provider,
        api_key,
        model,
        user_content: transcription,
        system_prompt: Some(system_prompt_of(prompt)),
        json_schema: Some(transcription_schema_view()),
    }
}

/// The first step of post-processing. It ends at once where no provider is
/// active, the provider has no model, or no prompt with any text is selected.
pub open spec fn post_process_step(
    settings: AppSettings,
    transcription: Seq<char>,
    apple_supported: bool,
) -> StepView {
    match (settings::active_provider(settings), settings::selected_prompt(settings)) {
        (Some(provider), Some(prompt)) => {
            let model = settings::text_or_empty(settings.post_process_models@, provider.id@);
            let api_key = settings::text_or_empty(settings.post_process_api_keys@, provider.id@);
            let legacy = legacy_call(provider, api_key, model, prompt, transcription);
            if text::is_blank(model) || text::is_blank(prompt) {
                StepView::Finished(None)
            } else if !provider.supports_structured_output {
                StepView::AskLegacy(legacy)
            } else if provider.id@ != APPLE_INTELLIGENCE_PROVIDER_ID@ {
                StepView::AskStructured {
                    call: structured_call(provider, api_key, model, prompt, transcription),
                    fallback: legacy,
                }
            } else if apple_supported {
                StepView::AskApple {
                    system_prompt: system_prompt_of(prompt),
                    user_content: transcription,
                    model,
                }
            } else {
                StepView::Finished(None)
            }
        },
        _ => StepView::Finished(None),
    }
}

/// Decides how a transcription is post-processed. `apple_supported` says whether
/// the platform has a model on the device.
pub fn post_process_transcription(
    settings: &AppSettings,
    transcription: &str,
    apple_supported: bool,
) -> (step: TextStep)
    ensures
        step@ == post_process_step(*settings, transcription@, apple_supported),
{
    let provider = match settings.active_post_process_provider() {
        Some(provider) => provider.clone(),
        None => return TextStep::Finished(None),
    };
    let model = get_or_empty(&settings.post_process_models, provider.id.as_str());
    if text::blank(model.as_str()) {
        return TextStep::Finished(None);
    }
    let prompt = match settings.selected_prompt() {
        Some(prompt) => prompt,
        None => return TextStep::Finished(None),
    };
    if text::blank(prompt.as_str()) {
        return TextStep::Finished(None);
    }
    let api_key = get_or_empty(&settings.post_process_api_keys, provider.id.as_str());
    let structured = provider.supports_structured_output;
    if structured && text::same_text(provider.id.as_str(), APPLE_INTELLIGENCE_PROVIDER_ID) {
        return if apple_supported {
            TextStep::AskApple {
                system_prompt: build_system_prompt(prompt.as_str()),
                user_content: transcription.to_string(),
                model,
            }
        } else {
            TextStep::Finished(None)
        };
    }
    proof {
        reveal_strlit("${output}");
    }
    let processed_prompt = text::replace_all(prompt.as_str(), OUTPUT_PLACEHOLDER, transcription);
    let legacy = ChatCall {
        provider: provider.clone(),
        api_key: api_key.clone(),
        model: model.clone(),
        user_content: processed_prompt,
        system_prompt: None,
        json_schema: None,
    };
    if structured {
        let call = ChatCall {
            provider,
            api_key,
            model,
            user_content: transcription.to_string(),
            system_prompt: Some(build_system_prompt(prompt.as_str())),
            json_schema: Some(transcription_schema()),
        };
        TextStep::AskStructured { call, fallback: legacy }
    } else {
        TextStep::AskLegacy(legacy)
    }
}

/// The provider of an action: its own where that exists, otherwise the active
/// one.
pub open spec fn action_provider(settings: AppSettings, provider_id: Option<Seq<char>>) -> Option<
    PostProcessProvider,
> {
    match provider_id {
        Some(id) => if id.len() > 0 && settings::provider_with_id(settings, id) is Some {
            settings::provider_with_id(settings, id)
        } else {
            settings::active_provider(settings)
        },
        None => settings::active_provider(settings),
    }
}

/// The model of an action: its own where that has a name, otherwise the one that
/// is configured for the provider.
pub open spec fn action_model(
    settings: AppSettings,
    provider: PostProcessProvider,
    model: Option<Seq<char>>,
) -> Seq<char> {
    match model {
        Some(own) => if text::is_blank(own) {
            settings::text_or_empty(settings.post_process_models@, provider.id@)
        } else {
            own
        },
        None => settings::text_or_empty(settings.post_process_models@, provider.id@),
    }
}

/// The question of an action: the transcription in place of the placeholder, or
/// below the prompt where it has none.
pub open spec fn action_prompt(prompt: Seq<char>, transcription: Seq<char>) -> Seq<char> {
    if text::has_pattern(prompt, OUTPUT_PLACEHOLDER@) {
        text::replaced(prompt, OUTPUT_PLACEHOLDER@, transcription)
    } else {
        prompt + "\n\n"@ + transcription
    }
}

/// The first step of an action. It ends at once where no provider can be found,
/// or the provider is a chat service without a model.
pub open spec fn action_step(
    settings: AppSettings,
    transcription: Seq<char>,
    prompt: Seq<char>,
    model: Option<Seq<char>>,
    provider_id: Option<Seq<char>>,
    apple_supported: bool,
) -> StepView {
    match action_provider(settings, provider_id) {
        Some(provider) => {
            let used_model = action_model(settings, provider, model);
            let full_prompt = action_prompt(prompt, transcription);
            if provider.id@ == APPLE_INTELLIGENCE_PROVIDER_ID@ {
                if apple_supported {
                    StepView::AskApple {
                        system_prompt: full_prompt,
                        user_content: transcription,
                        model: used_model,
                    }
                } else {
                    StepView::Finished(None)
                }
            } else if text::is_blank(used_model) {
                StepView::Finished(None)
            } else {
                StepView::AskAction(
                    ChatCallView {
                        provider,
                        api_key: settings::text_or_empty(
                            settings.post_process_api_keys@,
                            provider.id@,
                        ),
                        model: used_model,
                        user_content: full_prompt,
                        system_prompt: Some(ACTION_SYSTEM_PROMPT@),
                        json_schema: None,
                    },
                )
            }
        },
        None => StepView::Finished(None),
    }
}

/// Finds the provider of an action.
fn find_action_provider(settings: &AppSettings, provider_id: Option<&str>) -> (provider: Option<
    PostProcessProvider,
>)
    ensures
        provider == action_provider(*settings, text::opt_str(provider_id)),
{
    if let Some(id) = provider_id {
        if !id.is_empty() {
            if let Some(provider) = settings.post_process_provider(id) {
                return Some(provider.clone());
            }
        }
    }
    match settings.active_post_process_provider() {
        Some(provider) => Some(provider.clone()),
        None => None,
    }
}

/// Decides how an action is applied to a transcription.
pub fn process_action(
    settings: &AppSettings,
    transcription: &str,
    prompt: &str,
    action_model: Option<&str>,
    action_provider_id: Option<&str>,
    apple_supported: bool,
) -> (step: TextStep)
    ensures
        step@ == action_step(
            *settings,
            transcription@,
            prompt@,
            text::opt_str(action_model),
            text::opt_str(action_provider_id),
            apple_supported,
        ),
        step matches TextStep::AskAction(call) ==> call.user_content@ == (if text::has_pattern(
            prompt@,
            "${output}"@,
        ) {
            text::joined(text::pieces(prompt@, "${output}"@), transcription@)
        } else {
            prompt@ + "\n\n"@ + transcription@
        }),
{
    proof {
        law_action_question(prompt@, transcription@);
    }
    let provider = match find_action_provider(settings, action_provider_id) {
        Some(provider) => provider,
        None => return TextStep::Finished(None),
    };
    let configured = get_or_empty(&settings.post_process_models, provider.id.as_str());
    let model = match action_model {
        Some(own) => if text::blank(own) {
            configured
        } else {
            own.to_string()
        },
        None => configured,
    };
    proof {
        reveal_strlit("${output}");
    }
    let full_prompt = if text::contains(prompt, OUTPUT_PLACEHOLDER) {
        text::replace_all(prompt, OUTPUT_PLACEHOLDER, transcription)
    } else {
        text::join3(prompt, "\n\n", transcription)
    };
    if text::same_text(provider.id.as_str(), APPLE_INTELLIGENCE_PROVIDER_ID) {
        return if apple_supported {
            TextStep::AskApple {
                system_prompt: full_prompt,
                user_content: transcription.to_string(),
                model,
            }
        } else {
            TextStep::Finished(None)
        };
    }
    if text::blank(model.as_str()) {
        return TextStep::Finished(None);
    }
    let api_key = get_or_empty(&settings.post_process_api_keys, provider.id.as_str());
    TextStep::AskAction(
        ChatCall {
            provider,
            api_key,
            model,
            user_content: full_prompt,
            system_prompt: Some(ACTION_SYSTEM_PROMPT.to_string()),
            json_schema: None,
        },
    )
}

/// The question of an action always holds the transcription.
pub proof fn law_action_prompt(prompt: Seq<char>, transcription: Seq<char>)
    ensures
        text::has_pattern(action_prompt(prompt, transcription), transcription),
{
    reveal_strlit("${output}");
    let full = action_prompt(prompt, transcription);
    if text::has_pattern(prompt, OUTPUT_PLACEHOLDER@) {
        text::lemma_replacement_occurs(prompt, OUTPUT_PLACEHOLDER@, transcription);
    } else {
        let at = (prompt + "\n\n"@).len() as int;
        assert(full.skip(at) =~= transcription);
        assert(transcription.is_prefix_of(full.skip(at)));
    }
}

/// A prompt with the placeholder puts the transcription into the plain question
/// too; a prompt without it is asked as it stands.
pub proof fn law_legacy_prompt(
    provider: PostProcessProvider,
    api_key: Seq<char>,
    model: Seq<char>,
    prompt: Seq<char>,
    transcription: Seq<char>,
)
    ensures
        ({
            let call = legacy_call(provider, api_key, model, prompt, transcription);
            if text::has_pattern(prompt, OUTPUT_PLACEHOLDER@) {
                text::has_pattern(call.user_content, transcription)
            } else {
                call.user_content == prompt
            }
        }),
{
    reveal_strlit("${output}");
    if text::has_pattern(prompt, OUTPUT_PLACEHOLDER@) {
        text::lemma_replacement_occurs(prompt, OUTPUT_PLACEHOLDER@, transcription);
    } else {
        text::law_replaced(prompt, OUTPUT_PLACEHOLDER@, transcription);
    }
}

/// Post-processing asks nobody unless a provider is active, it has a model, and
/// a prompt with some text is selected. Whoever is asked is that provider, with
/// that model.
pub proof fn law_post_process_asks(
    settings: AppSettings,
    transcription: Seq<char>,
    apple_supported: bool,
)
    ensures
        ({
            let step = post_process_step(settings, transcription, apple_supported);
            match (settings::active_provider(settings), settings::selected_prompt(settings)) {
                (Some(provider), Some(prompt)) => {
                    let model = settings::text_or_empty(
                        settings.post_process_models@,
                        provider.id@,
                    );
                    &&& (text::is_blank(model) || text::is_blank(prompt)) ==> step
                        == StepView::Finished(None)
                    &&& !text::is_blank(model) && !text::is_blank(prompt) ==> (step is Finished
                        <==> provider.supports_structured_output && provider.id@
                        == APPLE_INTELLIGENCE_PROVIDER_ID@ && !apple_supported)
                    &&& step matches StepView::AskStructured { call, fallback } ==> call.provider
                        == provider && fallback.provider == provider && call.model == model
                        && fallback.model == model
                    &&& step matches StepView::AskLegacy(call) ==> call.provider == provider
                        && call.model == model
                    &&& step matches StepView::AskApple { model: named, .. } ==> named == model
                },
                _ => step == StepView::Finished(None),
            }
        }),
{
}

/// An action asks nobody unless a provider is found for it and, apart from the
/// model on the device, that provider has a model. A chat service that is asked
/// is that provider, with that model, and is told to answer with the text alone.
pub proof fn law_action_asks(
    settings: AppSettings,
    transcription: Seq<char>,
    prompt: Seq<char>,
    model: Option<Seq<char>>,
    provider_id: Option<Seq<char>>,
    apple_supported: bool,
)
    ensures
        ({
            let step = action_step(
                settings,
                transcription,
                prompt,
                model,
                provider_id,
                apple_supported,
            );
            match action_provider(settings, provider_id) {
                Some(provider) => {
                    let on_device = provider.id@ == APPLE_INTELLIGENCE_PROVIDER_ID@;
                    let used_model = action_model(settings, provider, model);
                    &&& on_device ==> (step is AskApple <==> apple_supported)
                    &&& !on_device ==> (step is AskAction <==> !text::is_blank(used_model))
                    &&& step is Finished || step is AskApple || step is AskAction
                    &&& step is Finished ==> step == StepView::Finished(None)
                    &&& step matches StepView::AskAction(call) ==> call.provider == provider
                        && call.model == used_model && call.system_prompt == Some(
                        ACTION_SYSTEM_PROMPT@,
                    ) && call.json_schema is None
                },
                None => step == StepView::Finished(None),
            }
        }),
{
}

// ---------------------------------------------------------------------------
// Answers
// ---------------------------------------------------------------------------

/// What the document of a structured answer comes to: the text of its field, or
/// the whole answer where that field is missing.
pub open spec fn structured_text(document: json::JsonView, content: Seq<char>) -> Seq<char> {
    match json::json_text_field(document, TRANSCRIPTION_FIELD@) {
        Some(found) => visible(found),
        None => visible(content),
    }
}

/// Reads the document of a structured answer.
pub fn text_of_document(document: &serde_json::Value, content: &str) -> (result: String)
    ensures
        result@ == structured_text(json::json_view(*document), content@),
        result@ == match json::json_text_field(json::json_view(*document), "transcription"@) {
            Some(found) => visible(found),
            None => visible(content@),
        },
{
    match json::text_field(document, TRANSCRIPTION_FIELD) {
        Some(found) => strip_invisible_chars(found),
        None => strip_invisible_chars(content),
    }
}

/// The step that follows a structured answer. A failure, and an answer that is
/// no JSON document, lead to the plain question; an answer without content ends
/// the matter.
pub open spec fn structured_step(
    reply: Result<Option<Seq<char>>, Seq<char>>,
    fallback: ChatCallView,
) -> StepView {
    match reply {
        Ok(Some(content)) => match json::json_document(content) {
            Some(document) => StepView::Finished(Some(structured_text(document, content))),
            None => StepView::AskLegacy(fallback),
        },
        Ok(None) => StepView::Finished(None),
        Err(_) => StepView::AskLegacy(fallback),
    }
}

/// Reads a structured answer.
pub fn structured_outcome(reply: Result<Option<String>, String>, fallback: ChatCall) -> (step:
    TextStep)
    ensures
        step@ == structured_step(text::reply_view(reply), fallback@),
{
    match reply {
        Ok(Some(content)) => match json::parse(content.as_str()) {
            Ok(document) => TextStep::Finished(
                Some(text_of_document(&document, content.as_str())),
            ),
            Err(_) => TextStep::AskLegacy(fallback),
        },
        Ok(None) => TextStep::Finished(None),
        Err(_) => TextStep::AskLegacy(fallback),
    }
}

/// A document of the shape that the schema asks for: an object with nothing but
/// the transcription, which is a text.
pub open spec fn meets_schema(document: json::JsonView) -> bool {
    document matches json::JsonView::Object(fields) && fields.dom() == set![TRANSCRIPTION_FIELD@]
        && fields[TRANSCRIPTION_FIELD@] is Text
}

/// An answer of the shape that was asked for yields its transcription. The plain
/// question follows exactly where asking failed or the answer is no document;
/// no other answer with content is lost.
pub proof fn law_structured_answer(
    reply: Result<Option<Seq<char>>, Seq<char>>,
    fallback: ChatCallView,
)
    ensures
        reply matches Ok(Some(content)) ==> (json::json_document(content) matches Some(document)
            ==> {
            &&& meets_schema(document) ==> structured_step(reply, fallback) == StepView::Finished(
                Some(visible(document->Object_0[TRANSCRIPTION_FIELD@]->Text_0)),
            )
            &&& structured_step(reply, fallback) matches StepView::Finished(Some(_))
        }),
        structured_step(reply, fallback) is AskLegacy <==> (reply is Err || (reply matches Ok(
            Some(content),
        ) && json::json_document(content) is None)),
        structured_step(reply, fallback) matches StepView::AskLegacy(call) ==> call == fallback,
        structured_step(reply, fallback) == StepView::Finished(None) <==> reply == Ok::<
            Option<Seq<char>>,
            Seq<char>,
        >(None),
{
    assert(set![TRANSCRIPTION_FIELD@].contains(TRANSCRIPTION_FIELD@));
}

/// What a plain answer comes to.
pub open spec fn legacy_result(reply: Result<Option<Seq<char>>, Seq<char>>) -> Option<Seq<char>> {
    match reply {
        Ok(Some(content)) => Some(visible(content)),
        _ => None,
    }
}

/// Reads a plain answer.
pub fn legacy_outcome(reply: Result<Option<String>, String>) -> (outcome: Option<String>)
    ensures
        text::opt_text(outcome) == legacy_result(text::reply_view(reply)),
        match reply {
            Ok(Some(content)) => outcome matches Some(found) && found@ == visible(content@),
            _ => outcome is None,
        },
{
    match reply {
        Ok(Some(content)) => Some(strip_invisible_chars(content.as_str())),
        _ => None,
    }
}

/// What the answer to an action comes to: an empty answer counts as none.
pub open spec fn action_result(reply: Result<Option<Seq<char>>, Seq<char>>) -> Option<Seq<char>> {
    match reply {
        Ok(Some(content)) => if content.len() > 0 {
            Some(visible(content))
        } else {
            None
        },
        _ => None,
    }
}

/// Reads the answer to an action.
pub fn action_outcome(reply: Result<Option<String>, String>) -> (outcome: Option<String>)
    ensures
        text::opt_text(outcome) == action_result(text::reply_view(reply)),
        match reply {
            Ok(Some(content)) => if content@.len() == 0 {
                outcome is None
            } else {
                outcome matches Some(found) && found@ == visible(content@)
            },
            _ => outcome is None,
        },
{
    match reply {
        Ok(Some(content)) => if content.as_str().is_empty() {
            None
        } else {
            Some(strip_invisible_chars(content.as_str()))
        },
        _ => None,
    }
}

// ---------------------------------------------------------------------------
// Laws on questions and answers
// ---------------------------------------------------------------------------

/// Exactly the four characters without width are removed from a text, whatever
/// stands around them; every other character stays in its place.
pub proof fn law_stripped_characters(before: Seq<char>, c: char, after: Seq<char>)
    ensures
        visible(before + seq![c] + after) == visible(before) + (if c == '\u{200B}' || c
            == '\u{200C}' || c == '\u{200D}' || c == '\u{FEFF}' {
            Seq::empty()
        } else {
            seq![c]
        }) + visible(after),
        visible(Seq::empty()) == Seq::<char>::empty(),
{
    lemma_visible_concat(before + seq![c], after);
    lemma_visible_concat(before, seq![c]);
    reveal(Seq::filter);
    assert(seq![c].drop_last() =~= Seq::empty());
    assert(visible(seq![c].drop_last()) =~= Seq::empty());
    assert(Seq::<char>::empty().push(c) =~= seq![c]);
}

/// The number that a model name writes, with white space around it or not, is
/// the token limit; every other name sets none.
pub proof fn law_token_limit(model: Seq<char>, number: int)
    ensures
        text::decimal_i32(text::trimmed(model)) == Some(number) ==> token_limit_of(model) == number,
        text::decimal_i32(text::trimmed(model)) is None ==> token_limit_of(model) == 0,
{
}

/// The schema asks for an object with the one text field `transcription`, which
/// must be there, and allows no other field.
pub proof fn law_transcription_schema()
    ensures
        ({
            let schema = transcription_schema_view();
            let properties = json::json_field(schema, "properties"@);
            &&& json::json_text_field(schema, "type"@) == Some("object"@)
            &&& json::json_field(schema, "required"@) == Some(
                json::JsonView::Array(seq![json::JsonView::Text("transcription"@)]),
            )
            &&& json::json_field(schema, "additionalProperties"@) == Some(
                json::JsonView::Bool(false),
            )
            &&& properties matches Some(json::JsonView::Object(fields)) && fields.dom() == set![
                "transcription"@,
            ] && json::json_text_field(fields["transcription"@], "type"@) == Some("string"@)
        }),
{
    reveal_strlit("type");
    reveal_strlit("description");
    reveal_strlit("properties");
    reveal_strlit("required");
    reveal_strlit("additionalProperties");
    assert("type"@.len() == 4 && "description"@.len() == 11 && "properties"@.len() == 10
        && "required"@.len() == 8 && "additionalProperties"@.len() == 20);
    if let Some(json::JsonView::Object(fields)) = json::json_field(
        transcription_schema_view(),
        "properties"@,
    ) {
        assert(fields.dom() =~= set!["transcription"@]);
    }
}

/// Where the active provider has a model and the selected prompt has some text:
///
/// - a provider with structured output is first asked a structured question,
///   whatever the prompt holds. The transcription is the message of the user, the
///   prompt without its placeholders the system prompt, and the shape of the
///   answer is asked for. The plain question is kept for later.
/// - the model on the device is asked with the same two texts, where the platform
///   has it, and otherwise nobody is.
/// - a provider without structured output is asked the plain question: the pieces
///   of the prompt between its placeholders, with the transcription in each gap.
///
/// Where any of these is missing, nobody is asked.
pub proof fn law_post_process_question(
    settings: AppSettings,
    transcription: Seq<char>,
    apple_supported: bool,
)
    ensures
        ({
            let step = post_process_step(settings, transcription, apple_supported);
            match (settings::active_provider(settings), settings::selected_prompt(settings)) {
                (Some(provider), Some(prompt)) => {
                    let model = if settings.post_process_models@.contains_key(provider.id@) {
                        settings.post_process_models@[provider.id@]@
                    } else {
                        Seq::empty()
                    };
                    let api_key = if settings.post_process_api_keys@.contains_key(provider.id@) {
                        settings.post_process_api_keys@[provider.id@]@
                    } else {
                        Seq::empty()
                    };
                    let parts = text::pieces(prompt, "${output}"@);
                    let system = text::trimmed(text::joined(parts, Seq::empty()));
                    let plain = ChatCallView {
                        provider,
                        api_key,
                        model,
                        user_content: text::joined(parts, transcription),
                        system_prompt: None,
                        json_schema: None,
                    };
                    let ready = text::trimmed(model).len() > 0 && text::trimmed(prompt).len() > 0;
                    let on_device = provider.id@ == "apple_intelligence"@;
                    &&& !ready ==> step == StepView::Finished(None)
                    &&& ready && provider.supports_structured_output && !on_device ==> step
                        == (StepView::AskStructured {
                        call: ChatCallView {
                            provider,
                            api_key,
                            model,
                            user_content: transcription,
                            system_prompt: Some(system),
                            json_schema: Some(transcription_schema_view()),
                        },
                        fallback: plain,
                    })
                    &&& ready && provider.supports_structured_output && on_device
                        && apple_supported ==> step == (StepView::AskApple {
                        system_prompt: system,
                        user_content: transcription,
                        model,
                    })
                    &&& ready && provider.supports_structured_output && on_device
                        && !apple_supported ==> step == StepView::Finished(None)
                    &&& ready && !provider.supports_structured_output ==> step
                        == StepView::AskLegacy(plain)
                },
                _ => step == StepView::Finished(None),
            }
        }),
{
    if let (Some(provider), Some(prompt)) = (
        settings::active_provider(settings),
        settings::selected_prompt(settings),
    ) {
        let model = settings::text_or_empty(settings.post_process_models@, provider.id@);
        text::lemma_blank_iff_trimmed_empty(model);
        text::lemma_blank_iff_trimmed_empty(prompt);
        law_system_prompt(prompt);
        reveal_strlit("${output}");
        text::law_replaced(prompt, OUTPUT_PLACEHOLDER@, transcription);
    }
}

/// The transcription of a structured question, and of one to the model on the
/// device, reaches the model unchanged, whatever the prompt is; two prompts make
/// no difference to who is asked, or whether with a schema.
pub proof fn law_prompt_does_not_route(
    settings: AppSettings,
    other: AppSettings,
    transcription: Seq<char>,
    apple_supported: bool,
)
    requires
        other.post_process_providers == settings.post_process_providers,
        other.post_process_provider_id == settings.post_process_provider_id,
        other.post_process_models == settings.post_process_models,
        other.post_process_api_keys == settings.post_process_api_keys,
        settings::selected_prompt(settings) matches Some(prompt) && !text::is_blank(prompt),
        settings::selected_prompt(other) matches Some(prompt) && !text::is_blank(prompt),
    ensures
        ({
            let one = post_process_step(settings, transcription, apple_supported);
            let two = post_process_step(other, transcription, apple_supported);
            &&& one is Finished <==> two is Finished
            &&& one is AskApple <==> two is AskApple
            &&& one is AskLegacy <==> two is AskLegacy
            &&& one is AskStructured <==> two is AskStructured
            &&& one matches StepView::AskStructured { call, .. } ==> (two matches
                StepView::AskStructured { call: other_call, .. } && call.user_content
                == transcription && other_call.user_content == transcription && call.json_schema
                == other_call.json_schema)
        }),
{
}

/// The question of an action whose prompt holds the placeholder is what stands
/// between the placeholders, in order, with the transcription in each gap.
/// Without the placeholder it is the prompt, an empty line and the transcription.
pub proof fn law_action_question(prompt: Seq<char>, transcription: Seq<char>)
    ensures
        text::has_pattern(prompt, "${output}"@) ==> action_prompt(prompt, transcription)
            == text::joined(text::pieces(prompt, "${output}"@), transcription),
        !text::has_pattern(prompt, "${output}"@) ==> action_prompt(prompt, transcription) == prompt
            + "\n\n"@ + transcription,
{
    reveal_strlit("${output}");
    text::law_replaced(prompt, OUTPUT_PLACEHOLDER@, transcription);
}

/// The transcription stands in an action's question exactly where the first
/// placeholder stood: what comes before it in the prompt comes before it in the
/// question, and what comes after it follows.
pub proof fn law_action_question_in_place(
    before: Seq<char>,
    after: Seq<char>,
    transcription: Seq<char>,
)
    requires
        forall|at: int|
            0 <= at < before.len() ==> !(#[trigger] "${output}"@.is_prefix_of(
                (before + "${output}"@ + after).skip(at),
            )),
    ensures
        action_prompt(before + "${output}"@ + after, transcription) == before + transcription
            + text::replaced(after, "${output}"@, transcription),
{
    reveal_strlit("${output}");
    text::law_first_occurrence(before, "${output}"@, after, transcription);
    text::law_has_pattern(before, "${output}"@, after, Seq::empty());
}

/// An action is asked of its own provider where it names one that exists, and
/// otherwise of the active one; with its own model where it names one, and
/// otherwise with the one configured for that provider. The model on the device
/// is told the question and given the transcription; a chat service is told to
/// answer with the text alone and given the question.
pub proof fn law_action_route(
    settings: AppSettings,
    transcription: Seq<char>,
    prompt: Seq<char>,
    model: Option<Seq<char>>,
    provider_id: Option<Seq<char>>,
    apple_supported: bool,
)
    ensures
        ({
            let step = action_step(
                settings,
                transcription,
                prompt,
                model,
                provider_id,
                apple_supported,
            );
            let own = match provider_id {
                Some(id) => if id.len() > 0 {
                    settings::provider_with_id(settings, id)
                } else {
                    None
                },
                None => None,
            };
            let chosen = if own is Some {
                own
            } else {
                settings::active_provider(settings)
            };
            match chosen {
                Some(provider) => {
                    let configured = if settings.post_process_models@.contains_key(provider.id@) {
                        settings.post_process_models@[provider.id@]@
                    } else {
                        Seq::empty()
                    };
                    let used = match model {
                        Some(named) => if text::trimmed(named).len() > 0 {
                            named
                        } else {
                            configured
                        },
                        None => configured,
                    };
                    let api_key = if settings.post_process_api_keys@.contains_key(provider.id@) {
                        settings.post_process_api_keys@[provider.id@]@
                    } else {
                        Seq::empty()
                    };
                    let question = if text::has_pattern(prompt, "${output}"@) {
                        text::joined(text::pieces(prompt, "${output}"@), transcription)
                    } else {
                        prompt + "\n\n"@ + transcription
                    };
                    let on_device = provider.id@ == "apple_intelligence"@;
                    &&& on_device && apple_supported ==> step == (StepView::AskApple {
                        system_prompt: question,
                        user_content: transcription,
                        model: used,
                    })
                    &&& on_device && !apple_supported ==> step == StepView::Finished(None)
                    &&& !on_device && text::trimmed(used).len() == 0 ==> step
                        == StepView::Finished(None)
                    &&& !on_device && text::trimmed(used).len() > 0 ==> step
                        == StepView::AskAction(
                        ChatCallView {
                            provider,
                            api_key,
                            model: used,
                            user_content: question,
                            system_prompt: Some(
                                "You are a text processing assistant. Output ONLY the final processed text. Do not add any explanation, commentary, preamble, or formatting such as markdown code blocks. Just output the raw result text, nothing else."@,
                            ),
                            json_schema: None,
                        },
                    )
                },
                None => step == StepView::Finished(None),
            }
        }),
{
    law_action_question(prompt, transcription);
    if let Some(named) = model {
        text::lemma_blank_iff_trimmed_empty(named);
    }
    if let Some(provider) = action_provider(settings, provider_id) {
        text::lemma_blank_iff_trimmed_empty(action_model(settings, provider, model));
    }
}

/// A structured answer that is a document yields the text of its field
/// `transcription`, whatever other fields it has, and the whole answer where it
/// has no such text; the invisible characters are gone in either case.
pub proof fn law_structured_content(
    content: Seq<char>,
    document: json::JsonView,
    fallback: ChatCallView,
)
    requires
        json::json_document(content) == Some(document),
    ensures
        ({
            let step = structured_step(Ok(Some(content)), fallback);
            match document {
                json::JsonView::Object(fields) => if fields.contains_key("transcription"@)
                    && fields["transcription"@] is Text {
                    step == StepView::Finished(Some(visible(fields["transcription"@]->Text_0)))
                } else {
                    step == StepView::Finished(Some(visible(content)))
                },
                _ => step == StepView::Finished(Some(visible(content))),
            }
        }),
{
}

/// What the answers of the models come to. An answer of the model on the device
/// needs some text in it, the answer to an action at least one character; a plain
/// answer counts as it is. A failure, and an answer without content, come to
/// nothing. What is kept of an answer is all that can be seen of it.
pub proof fn law_answers(content: Seq<char>, reason: Seq<char>)
    ensures
        apple_result(Ok(content)) == (if text::trimmed(content).len() > 0 {
            Some(visible(content))
        } else {
            None
        }),
        apple_result(Err(reason)) is None,
        action_result(Ok(Some(content))) == (if content.len() > 0 {
            Some(visible(content))
        } else {
            None
        }),
        action_result(Ok(None)) is None,
        action_result(Err(reason)) is None,
        legacy_result(Ok(Some(content))) == Some(visible(content)),
        legacy_result(Ok(None)) is None,
        legacy_result(Err(reason)) is None,
{
    text::lemma_blank_iff_trimmed_empty(content);
}

}
