//! Requests to chat services, and what is made of their replies.
use crate::headers;
use crate::json;
use crate::settings::{
    PostProcessProvider, PROVIDER_ID_ANTHROPIC, PROVIDER_ID_GEMINI,
};
use crate::text;
use vstd::prelude::*;

verus! {

/// Seconds after which a request is given up.
pub const REQUEST_TIMEOUT_SECS: u64 = 30;

/// The `User-Agent` that every request carries.
pub const PHRASER_USER_AGENT: &'static str = "Parler/1.0 (+https://github.com/fxbenard/Parler)";

/// The `Referer` that every request carries.
pub const PHRASER_REFERER: &'static str = "https://github.com/fxbenard/Parler";

/// The version of the Anthropic API that requests are written for.
pub const ANTHROPIC_API_VERSION: &'static str = "2023-06-01";

// ---------------------------------------------------------------------------
// Headers
// ---------------------------------------------------------------------------

/// The headers that every provider gets.
pub open spec fn common_headers() -> Map<Seq<char>, Seq<Seq<u8>>> {
    headers::no_entries().insert("content-type"@, headers::sole_value("application/json"@)).insert(
        "referer"@,
        headers::sole_value(PHRASER_REFERER@),
    ).insert("user-agent"@, headers::sole_value(PHRASER_USER_AGENT@)).insert(
        "x-title"@,
        headers::sole_value("Parler"@),
    )
}

/// The headers of a request to the provider `provider_id` with the key
/// `api_key`, or the message that refuses the key. An empty key is not sent.
/// Anthropic gets the key in a header of its own, every other provider as a
/// bearer token.
pub open spec fn request_headers(provider_id: Seq<char>, api_key: Seq<char>) -> Result<
    Map<Seq<char>, Seq<Seq<u8>>>,
    Seq<char>,
> {
    if api_key.len() == 0 {
        Ok(common_headers())
    } else if provider_id == PROVIDER_ID_ANTHROPIC@ {
        if headers::is_header_text(api_key) {
            Ok(
                common_headers().insert("x-api-key"@, headers::sole_value(api_key)).insert(
                    "anthropic-version"@,
                    headers::sole_value(ANTHROPIC_API_VERSION@),
                ),
            )
        } else {
            Err("Invalid API key header value: "@ + "failed to parse header value"@)
        }
    } else if headers::is_header_text(api_key) {
        Ok(common_headers().insert("authorization"@, headers::sole_value("Bearer "@ + api_key)))
    } else {
        Err("Invalid authorization header value: "@ + "failed to parse header value"@)
    }
}

/// The model of the outcome of [`build_headers`].
pub open spec fn headers_view(outcome: Result<reqwest::header::HeaderMap, String>) -> Result<
    Map<Seq<char>, Seq<Seq<u8>>>,
    Seq<char>,
> {
    match outcome {
        Ok(headers) => Ok(headers::header_entries(headers)),
        Err(message) => Err(message@),
    }
}

/// Gives the header `name` the one value `value`.
fn put(
    map: &mut reqwest::header::HeaderMap,
    name: &'static str,
    value: reqwest::header::HeaderValue,
)
    requires
        headers::is_plain_header_name(name@),
        headers::header_entries(*old(map)).dom().finite(),
        headers::header_entries(*old(map)).dom().len() <= 100,
    ensures
        headers::header_entries(*final(map)) == headers::header_entries(*old(map)).insert(
            headers::header_key(name@),
            seq![headers::header_bytes(value)],
        ),
        headers::header_entries(*final(map)).dom().finite(),
        headers::header_entries(*final(map)).dom().len() <= headers::header_entries(
            *old(map),
        ).dom().len() + 1,
{
    headers::insert_header(map, name, value);
}

proof fn lemma_lower_case_key(name: Seq<char>)
    requires
        forall|i: int| 0 <= i < name.len() ==> !('A' <= #[trigger] name[i] <= 'Z'),
    ensures
        headers::header_key(name) == name,
{
    assert(headers::header_key(name) =~= name);
}

/// Builds the headers of a request to `provider`.
pub fn build_headers(provider: &PostProcessProvider, api_key: &str) -> (outcome: Result<
    reqwest::header::HeaderMap,
    String,
>)
    ensures
        headers_view(outcome) == request_headers(provider.id@, api_key@),
{
    proof {
        reveal_strlit("application/json");
        reveal_strlit("https://github.com/fxbenard/Parler");
        reveal_strlit("Parler/1.0 (+https://github.com/fxbenard/Parler)");
        reveal_strlit("Parler");
        reveal_strlit("2023-06-01");
        reveal_strlit("content-type");
        reveal_strlit("referer");
        reveal_strlit("user-agent");
        reveal_strlit("X-Title");
        reveal_strlit("x-title");
        reveal_strlit("x-api-key");
        reveal_strlit("anthropic-version");
        reveal_strlit("authorization");
        lemma_lower_case_key("content-type"@);
        lemma_lower_case_key("referer"@);
        lemma_lower_case_key("user-agent"@);
        lemma_lower_case_key("x-api-key"@);
        lemma_lower_case_key("anthropic-version"@);
        lemma_lower_case_key("authorization"@);
        assert(headers::header_key("X-Title"@) =~= "x-title"@);
    }
    let mut map = headers::new_headers();
    put(&mut map, "content-type", headers::static_value("application/json"));
    put(&mut map, "referer", headers::static_value(PHRASER_REFERER));
    put(&mut map, "user-agent", headers::static_value(PHRASER_USER_AGENT));
    put(&mut map, "X-Title", headers::static_value("Parler"));
    assert(headers::header_entries(map) =~= common_headers());

    if !api_key.is_empty() {
        if text::same_text(provider.id.as_str(), PROVIDER_ID_ANTHROPIC) {
            let key = match headers::text_value(api_key) {
                Ok(key) => key,
                Err(e) => {
                    let reason = headers::invalid_value_text(&e);
                    return Err(text::join2("Invalid API key header value: ", reason.as_str()));
                },
            };
            put(&mut map, "x-api-key", key);
            put(&mut map, "anthropic-version", headers::static_value(ANTHROPIC_API_VERSION));
        } else {
            let bearer = text::join2("Bearer ", api_key);
            proof {
                lemma_bearer_is_header_text(api_key@);
            }
            let token = match headers::text_value(bearer.as_str()) {
                Ok(token) => token,
                Err(e) => {
                    let reason = headers::invalid_value_text(&e);
                    return Err(
                        text::join2("Invalid authorization header value: ", reason.as_str()),
                    );
                },
            };
            put(&mut map, "authorization", token);
        }
    }
    Ok(map)
}

proof fn lemma_bearer_is_header_text(api_key: Seq<char>)
    ensures
        headers::is_header_text("Bearer "@ + api_key) == headers::is_header_text(api_key),
{
    reveal_strlit("Bearer ");
    let bearer = "Bearer "@ + api_key;
    assert forall|i: int| 0 <= i < api_key.len() implies bearer[i + 7] == #[trigger] api_key[i] by {}
    if headers::is_header_text(bearer) {
        assert forall|i: int| 0 <= i < api_key.len() implies headers::is_header_char(
            #[trigger] api_key[i],
        ) by {
            assert(headers::is_header_char(bearer[i + 7]));
        }
    }
    if headers::is_header_text(api_key) {
        assert forall|i: int| 0 <= i < bearer.len() implies headers::is_header_char(
            #[trigger] bearer[i],
        ) by {
            if i >= 7 {
                assert(bearer[i] == api_key[i - 7]);
            }
        }
    }
}

/// Every accepted request says who sends it and what it carries, and holds the
/// key in at most one place: nowhere without a key, in `x-api-key` for
/// Anthropic, in `authorization` for every other provider.
pub proof fn law_key_header(provider_id: Seq<char>, api_key: Seq<char>)
    ensures
        request_headers(provider_id, api_key) is Ok <==> headers::is_header_text(api_key),
        request_headers(provider_id, api_key) matches Ok(sent) ==> {
            let anthropic = provider_id == PROVIDER_ID_ANTHROPIC@;
            let has_key = api_key.len() > 0;
            &&& common_headers().submap_of(sent)
            &&& sent.contains_key("authorization"@) <==> has_key && !anthropic
            &&& sent.contains_key("x-api-key"@) <==> has_key && anthropic
            &&& sent.contains_key("anthropic-version"@) <==> has_key && anthropic
        },
{
    reveal_strlit("content-type");
    reveal_strlit("referer");
    reveal_strlit("user-agent");
    reveal_strlit("x-title");
    reveal_strlit("x-api-key");
    reveal_strlit("anthropic-version");
    reveal_strlit("authorization");
    assert("content-type"@[0] == 'c');
    assert("referer"@[0] == 'r');
    assert("user-agent"@[0] == 'u');
    assert("x-title"@[2] == 't');
    assert("x-api-key"@[2] == 'a' && "x-api-key"@[0] == 'x');
    assert("anthropic-version"@[1] == 'n' && "anthropic-version"@[0] == 'a');
    assert("authorization"@[1] == 'u' && "authorization"@[0] == 'a');
}

// ---------------------------------------------------------------------------
// Chat requests
// ---------------------------------------------------------------------------

/// One message of a conversation.
#[derive(Debug)]
pub struct ChatMessage {
    pub role: String,
    pub content: String,
}

/// The shape that a reply must have.
#[derive(Debug)]
pub struct JsonSchema {
    pub name: String,
    pub strict: bool,
    pub schema: serde_json::Value,
}

/// The request for a reply of a given shape.
#[derive(Debug)]
pub struct ResponseFormat {
    pub format_type: String,
    pub json_schema: JsonSchema,
}

/// The body of a chat request.
#[derive(Debug)]
pub struct ChatCompletionRequest {
    pub model: String,
    pub messages: Vec<ChatMessage>,
    pub response_format: Option<ResponseFormat>,
}

/// The body of the reply to a chat request.
#[derive(Debug)]
pub struct ChatCompletionResponse {
    pub choices: Vec<ChatChoice>,
}

/// One of the answers of a reply.
#[derive(Debug)]
pub struct ChatChoice {
    pub message: ChatMessageResponse,
}

/// The message of an answer.
#[derive(Debug)]
pub struct ChatMessageResponse {
    pub content: Option<String>,
}

/// What is sent to a provider.
pub enum ChatDispatch {
    /// A text generation by the Gemini client.
    Gemini { api_key: String, model: String, system_prompt: String, user_content: String },
    /// A `POST` to an OpenAI-compatible service.
    Http { url: String, headers: reqwest::header::HeaderMap, body: ChatCompletionRequest },
}

/// The model of a [`ChatMessage`].
#[verifier::ext_equal]
pub struct MessageView {
    pub role: Seq<char>,
    pub content: Seq<char>,
}

impl View for ChatMessage {
    type V = MessageView;

    open spec fn view(&self) -> MessageView {
        MessageView { role: self.role@, content: self.content@ }
    }
}

/// The model of a [`ResponseFormat`].
#[verifier::ext_equal]
pub struct FormatView {
    pub format_type: Seq<char>,
    pub name: Seq<char>,
    pub strict: bool,
    pub schema: json::JsonView,
}

impl View for ResponseFormat {
    type V = FormatView;

    open spec fn view(&self) -> FormatView {
        FormatView {
            format_type: self.format_type@,
            name: self.json_schema.name@,
            strict: self.json_schema.strict,
            schema: json::json_view(self.json_schema.schema),
        }
    }
}

/// The model of a [`ChatCompletionRequest`].
#[verifier::ext_equal]
pub struct RequestView {
    pub model: Seq<char>,
    pub messages: Seq<MessageView>,
    pub response_format: Option<FormatView>,
}

impl View for ChatCompletionRequest {
    type V = RequestView;

    open spec fn view(&self) -> RequestView {
        RequestView {
            model: self.model@,
            messages: self.messages@.map_values(|m: ChatMessage| m@),
            response_format: match self.response_format {
                Some(format) => Some(format@),
                None => None,
            },
        }
    }
}

/// The model of a [`ChatDispatch`].
#[verifier::ext_equal]
pub enum DispatchView {
    Gemini {
        api_key: Seq<char>,
        model: Seq<char>,
        system_prompt: Seq<char>,
        user_content: Seq<char>,
    },
    Http { url: Seq<char>, headers: Map<Seq<char>, Seq<Seq<u8>>>, body: RequestView },
}

impl View for ChatDispatch {
    type V = DispatchView;

    open spec fn view(&self) -> DispatchView {
        match self {
            ChatDispatch::Gemini {
                api_key,
                model,
                system_prompt,
                user_content,
            } => DispatchView::Gemini {
                api_key: api_key@,
                model: model@,
                system_prompt: system_prompt@,
                user_content: user_content@,
            },
            ChatDispatch::Http { url, headers, body } => DispatchView::Http {
                url: url@,
                headers: headers::header_entries(*headers),
                body: body@,
            },
        }
    }
}

/// The model of the outcome of preparing a chat request.
pub open spec fn dispatch_view(outcome: Result<ChatDispatch, String>) -> Result<
    DispatchView,
    Seq<char>,
> {
    match outcome {
        Ok(dispatch) => Ok(dispatch@),
        Err(message) => Err(message@),
    }
}

/// The model of an optional JSON document.
pub open spec fn opt_json(document: Option<serde_json::Value>) -> Option<json::JsonView> {
    match document {
        Some(document) => Some(json::json_view(document)),
        None => None,
    }
}

/// The conversation of a request: the system prompt, where there is one, then
/// what the user says.
pub open spec fn conversation(system_prompt: Option<Seq<char>>, user_content: Seq<char>) -> Seq<
    MessageView,
> {
    let user = MessageView { role: "user"@, content: user_content };
    match system_prompt {
        Some(system) => seq![MessageView { role: "system"@, content: system }, user],
        None => seq![user],
    }
}

/// The format in which a reply of the shape `schema` is asked for.
pub open spec fn strict_format(schema: Option<json::JsonView>) -> Option<FormatView> {
    match schema {
        Some(schema) => Some(
            FormatView {
                format_type: "json_schema"@,
                name: "transcription_output"@,
                strict: true,
                schema,
            },
        ),
        None => None,
    }
}

/// The address of the service `endpoint` below `base_url`, which gives up the
/// slashes at its end.
pub open spec fn endpoint_url(base_url: Seq<char>, endpoint: Seq<char>) -> Seq<char> {
    text::without_end_slashes(base_url) + endpoint
}

/// What is sent to `provider` for one chat request, or why nothing is sent.
pub open spec fn chat_dispatch(
    provider: PostProcessProvider,
    api_key: Seq<char>,
    model: Seq<char>,
    user_content: Seq<char>,
    system_prompt: Option<Seq<char>>,
    schema: Option<json::JsonView>,
) -> Result<DispatchView, Seq<char>> {
    if provider.id@ == PROVIDER_ID_GEMINI@ {
        Ok(
            DispatchView::Gemini {
                api_key,
                model,
                system_prompt: match system_prompt {
                    Some(system) => system,
                    None => Seq::empty(),
                },
                user_content,
            },
        )
    } else {
        match request_headers(provider.id@, api_key) {
            Ok(entries) => Ok(
                DispatchView::Http {
                    url: endpoint_url(provider.base_url@, "/chat/completions"@),
                    headers: entries,
                    body: RequestView {
                        model,
                        messages: conversation(system_prompt, user_content),
                        response_format: strict_format(schema),
                    },
                },
            ),
            Err(message) => Err(message),
        }
    }
}

/// Prepares a chat request. With a system prompt it opens the conversation; with
/// a schema the reply is asked for in that shape, and the schema is sent as it
/// was given. Gemini is sent neither a schema nor headers: its own client takes
/// over.
pub fn send_chat_completion_with_schema(
    provider: &PostProcessProvider,
    api_key: String,
    model: &str,
    user_content: String,
    system_prompt: Option<String>,
    json_schema: Option<serde_json::Value>,
) -> (outcome: Result<ChatDispatch, String>)
    ensures
        dispatch_view(outcome) == chat_dispatch(
            *provider,
            api_key@,
            model@,
            user_content@,
            text::opt_text(system_prompt),
            opt_json(json_schema),
        ),
        json_schema matches Some(schema) ==> (outcome matches Ok(ChatDispatch::Http { body, .. })
            ==> (body.response_format matches Some(format) && format.json_schema.schema
            == schema)),
{
    if text::same_text(provider.id.as_str(), PROVIDER_ID_GEMINI) {
        let system = match system_prompt {
            Some(system) => system,
            None => String::new(),
        };
        return Ok(
            ChatDispatch::Gemini {
                api_key,
                model: model.to_string(),
                system_prompt: system,
                user_content,
            },
        );
    }
    let base_url = text::trim_end_slashes(provider.base_url.as_str());
    let url = text::join2(base_url.as_str(), "/chat/completions");
    let headers = match build_headers(provider, api_key.as_str()) {
        Ok(headers) => headers,
        Err(message) => return Err(message),
    };
    let mut messages: Vec<ChatMessage> = Vec::new();
    let ghost system_view = text::opt_text(system_prompt);
    let ghost user_view = user_content@;
    if let Some(system) = system_prompt {
        messages.push(ChatMessage { role: "system".to_string(), content: system });
    }
    messages.push(ChatMessage { role: "user".to_string(), content: user_content });
    assert(messages@.map_values(|m: ChatMessage| m@) =~= conversation(system_view, user_view));
    let response_format = match json_schema {
        Some(schema) => Some(
            ResponseFormat {
                format_type: "json_schema".to_string(),
                json_schema: JsonSchema {
                    name: "transcription_output".to_string(),
                    strict: true,
                    schema,
                },
            },
        ),
        None => None,
    };
    let body = ChatCompletionRequest { model: model.to_string(), messages, response_format };
    Ok(ChatDispatch::Http { url, headers, body })
}

/// Prepares a chat request that holds nothing but the prompt.
pub fn send_chat_completion(
    provider: &PostProcessProvider,
    api_key: String,
    model: &str,
    prompt: String,
) -> (outcome: Result<ChatDispatch, String>)
    ensures
        dispatch_view(outcome) == chat_dispatch(
            *provider,
            api_key@,
            model@,
            prompt@,
            None,
            None,
        ),
{
    send_chat_completion_with_schema(provider, api_key, model, prompt, None, None)
}

/// Prepares a chat request with a system prompt and no schema.
pub fn send_chat_completion_with_system(
    provider: &PostProcessProvider,
    api_key: String,
    model: &str,
    user_content: String,
    system_prompt: String,
) -> (outcome: Result<ChatDispatch, String>)
    ensures
        dispatch_view(outcome) == chat_dispatch(
            *provider,
            api_key@,
            model@,
            user_content@,
            Some(system_prompt@),
            None,
        ),
{
    send_chat_completion_with_schema(
        provider,
        api_key,
        model,
        user_content,
        Some(system_prompt),
        None,
    )
}

/// An address does not depend on the slashes at the end of the base address:
/// what is cut off is slashes alone, and none is left before the endpoint.
pub proof fn law_endpoint_url(base_url: Seq<char>, endpoint: Seq<char>)
    ensures
        endpoint_url(base_url.push('/'), endpoint) == endpoint_url(base_url, endpoint),
        text::without_end_slashes(base_url).is_prefix_of(base_url),
        forall|i: int|
            text::without_end_slashes(base_url).len() <= i < base_url.len() ==> (
            #[trigger] base_url[i]) == '/',
        text::without_end_slashes(base_url).len() > 0 ==> text::without_end_slashes(base_url).last()
            != '/',
    decreases base_url.len(),
{
    assert(base_url.push('/').drop_last() =~= base_url);
    if base_url.len() > 0 && base_url.last() == '/' {
        let shorter = base_url.drop_last();
        law_endpoint_url(shorter, endpoint);
        let kept = text::without_end_slashes(base_url);
        assert(kept =~= base_url.subrange(0, kept.len() as int)) by {
            assert(kept =~= shorter.subrange(0, kept.len() as int));
        }
        assert forall|i: int| kept.len() <= i < base_url.len() implies (#[trigger] base_url[i])
            == '/' by {
            if i < shorter.len() {
                assert(shorter[i] == base_url[i]);
            }
        }
    } else {
        assert(base_url =~= base_url.subrange(0, base_url.len() as int));
    }
}

/// Gemini is always asked, with the texts as they are. Every other provider is
/// asked exactly where the key can be sent; the last thing said is the text of
/// the user, the system prompt comes first where there is one, and a shape is
/// asked for exactly where there is a schema, then strictly.
pub proof fn law_chat_request(
    provider: PostProcessProvider,
    api_key: Seq<char>,
    model: Seq<char>,
    user_content: Seq<char>,
    system_prompt: Option<Seq<char>>,
    schema: Option<json::JsonView>,
)
    ensures
        ({
            let sent = chat_dispatch(
                provider,
                api_key,
                model,
                user_content,
                system_prompt,
                schema,
            );
            let gemini = provider.id@ == PROVIDER_ID_GEMINI@;
            &&& sent is Ok <==> gemini || headers::is_header_text(api_key)
            &&& sent matches Ok(sent) ==> (sent is Gemini <==> gemini)
            &&& sent matches Ok(DispatchView::Gemini { user_content: said, .. }) ==> said
                == user_content
            &&& sent matches Ok(DispatchView::Http { headers, body, .. }) ==> {
                &&& Ok::<Map<Seq<char>, Seq<Seq<u8>>>, Seq<char>>(headers) == request_headers(
                    provider.id@,
                    api_key,
                )
                &&& body.model == model
                &&& body.messages.len() == (if system_prompt is Some {
                    2int
                } else {
                    1int
                })
                &&& body.messages.last() == (MessageView { role: "user"@, content: user_content })
                &&& system_prompt matches Some(system) ==> body.messages[0] == (MessageView {
                    role: "system"@,
                    content: system,
                })
                &&& body.response_format is Some <==> schema is Some
                &&& body.response_format matches Some(format) ==> format.strict && Some(
                    format.schema,
                ) == schema
            }
        }),
{
    law_key_header(provider.id@, api_key);
}

// ---------------------------------------------------------------------------
// Replies to chat requests
// ---------------------------------------------------------------------------

/// Whether an HTTP status code reports success.
pub open spec fn is_success_status(code: u16) -> bool {
    200 <= code < 300
}

/// Whether the body of a reply is to be read as a result.
pub fn is_success(code: u16) -> (success: bool)
    ensures
        success == is_success_status(code),
        success <==> 200 <= code <= 299,
{
    200 <= code && code < 300
}

/// How an HTTP exchange ended. The reasons are texts of the HTTP client.
pub enum HttpReply<T> {
    /// No client could be made.
    NoClient(String),
    /// The request could not be sent.
    NotSent(String),
    /// The service answered with another status than success, and with this
    /// text, where it could be read.
    Refused { status: u16, body: Option<String> },
    /// The service reported success, but its answer could not be understood.
    Unreadable(String),
    /// The service reported success.
    Received(T),
}

/// A reply whose status code, where it has one, is an HTTP status code.
pub open spec fn has_valid_status<T>(reply: HttpReply<T>) -> bool {
    reply matches HttpReply::Refused { status, .. } ==> 100 <= status <= 999
}

/// The text of a refusal, or `missing` where it could not be read.
pub open spec fn body_or(body: Option<String>, missing: Seq<char>) -> Seq<char> {
    match body {
        Some(body) => body@,
        None => missing,
    }
}

/// The content of the first answer.
pub open spec fn first_content(response: ChatCompletionResponse) -> Option<Seq<char>> {
    if response.choices@.len() > 0 {
        text::opt_text(response.choices@[0].message.content)
    } else {
        None
    }
}

/// What a chat request comes to.
pub open spec fn chat_result(reply: HttpReply<ChatCompletionResponse>) -> Result<
    Option<Seq<char>>,
    Seq<char>,
> {
    match reply {
        HttpReply::NoClient(reason) => Err("Failed to build HTTP client: "@ + reason@),
        HttpReply::NotSent(reason) => Err("HTTP request failed: "@ + reason@),
        HttpReply::Refused { status, body } => Err(
            "API request failed with status "@ + headers::status_line(status) + (": "@ + body_or(
                body,
                "Failed to read error response"@,
            )),
        ),
        HttpReply::Unreadable(reason) => Err("Failed to parse API response: "@ + reason@),
        HttpReply::Received(response) => Ok(first_content(response)),
    }
}

fn body_text(body: Option<String>, missing: &str) -> (shown: String)
    ensures
        shown@ == body_or(body, missing@),
{
    match body {
        Some(body) => body,
        None => missing.to_string(),
    }
}

/// Reads the reply to a chat request: the content of its first answer, `None`
/// where there is none, or what went wrong.
pub fn chat_outcome(reply: HttpReply<ChatCompletionResponse>) -> (outcome: Result<
    Option<String>,
    String,
>)
    requires
        has_valid_status(reply),
    ensures
        text::reply_view(outcome) == chat_result(reply),
        match reply {
            HttpReply::Received(response) => if response.choices@.len() == 0 {
                outcome matches Ok(None)
            } else {
                match response.choices@[0].message.content {
                    Some(content) => outcome matches Ok(Some(found)) && found@ == content@,
                    None => outcome matches Ok(None),
                }
            },
            _ => outcome is Err,
        },
{
    match reply {
        HttpReply::NoClient(reason) => Err(
            text::join2("Failed to build HTTP client: ", reason.as_str()),
        ),
        HttpReply::NotSent(reason) => Err(text::join2("HTTP request failed: ", reason.as_str())),
        HttpReply::Refused { status, body } => {
            let line = headers::status_text(status);
            let shown = body_text(body, "Failed to read error response");
            let rest = text::join2(": ", shown.as_str());
            Err(text::join3("API request failed with status ", line.as_str(), rest.as_str()))
        },
        HttpReply::Unreadable(reason) => Err(
            text::join2("Failed to parse API response: ", reason.as_str()),
        ),
        HttpReply::Received(response) => {
            if response.choices.len() > 0 {
                match &response.choices[0].message.content {
                    Some(content) => Ok(Some(content.clone())),
                    None => Ok(None),
                }
            } else {
                Ok(None)
            }
        },
    }
}

/// What a text generation by the Gemini client comes to.
pub open spec fn gemini_result(reply: Result<Seq<char>, Seq<char>>) -> Result<
    Option<Seq<char>>,
    Seq<char>,
> {
    match reply {
        Ok(content) => Ok(
            if content.len() > 0 {
                Some(content)
            } else {
                None
            },
        ),
        Err(reason) => Err("Gemini API error: "@ + reason),
    }
}

/// Reads the reply of the Gemini client: an empty text counts as no content.
pub fn gemini_outcome(reply: Result<String, String>) -> (outcome: Result<Option<String>, String>)
    ensures
        text::reply_view(outcome) == gemini_result(text::result_view(reply)),
        match reply {
            Ok(content) => if content@.len() == 0 {
                outcome matches Ok(None)
            } else {
                outcome matches Ok(Some(found)) && found@ == content@
            },
            Err(reason) => outcome matches Err(message) && message@ == "Gemini API error: "@
                + reason@,
        },
{
    match reply {
        Ok(content) => if content.as_str().is_empty() {
            Ok(None)
        } else {
            Ok(Some(content))
        },
        Err(reason) => Err(text::join2("Gemini API error: ", reason.as_str())),
    }
}

// ---------------------------------------------------------------------------
// Model lists
// ---------------------------------------------------------------------------

/// Where the models of a provider are listed.
pub enum ModelsDispatch {
    /// A `GET` to Gemini with exactly these headers.
    Gemini { url: String, fields: Vec<(String, String)> },
    /// A `GET` to an OpenAI-compatible service.
    Http { url: String, headers: reqwest::header::HeaderMap },
}

/// The model of a [`ModelsDispatch`].
#[verifier::ext_equal]
pub enum ModelsView {
    Gemini { url: Seq<char>, fields: Seq<(Seq<char>, Seq<char>)> },
    Http { url: Seq<char>, headers: Map<Seq<char>, Seq<Seq<u8>>> },
}

impl View for ModelsDispatch {
    type V = ModelsView;

    open spec fn view(&self) -> ModelsView {
        match self {
            ModelsDispatch::Gemini { url, fields } => ModelsView::Gemini {
                url: url@,
                fields: fields@.map_values(|h: (String, String)| (h.0@, h.1@)),
            },
            ModelsDispatch::Http { url, headers } => ModelsView::Http {
                url: url@,
                headers: headers::header_entries(*headers),
            },
        }
    }
}

/// The model of the outcome of [`fetch_models`].
pub open spec fn models_dispatch_view(outcome: Result<ModelsDispatch, String>) -> Result<
    ModelsView,
    Seq<char>,
> {
    match outcome {
        Ok(dispatch) => Ok(dispatch@),
        Err(message) => Err(message@),
    }
}

/// How the models of `provider` are asked for, or why they are not.
pub open spec fn models_dispatch(provider: PostProcessProvider, api_key: Seq<char>) -> Result<
    ModelsView,
    Seq<char>,
> {
    if provider.id@ == PROVIDER_ID_GEMINI@ {
        Ok(
            ModelsView::Gemini {
                url: "https://generativelanguage.googleapis.com/v1beta/models"@,
                fields: seq![
                    ("x-goog-api-key"@, api_key),
                    ("user-agent"@, PHRASER_USER_AGENT@),
                    ("referer"@, PHRASER_REFERER@),
                ],
            },
        )
    } else {
        match request_headers(provider.id@, api_key) {
            Ok(entries) => Ok(
                ModelsView::Http {
                    url: endpoint_url(provider.base_url@, "/models"@),
                    headers: entries,
                },
            ),
            Err(message) => Err(message),
        }
    }
}

/// Prepares the request for the models of Gemini.
pub fn fetch_gemini_models(api_key: &str) -> (dispatch: ModelsDispatch)
    ensures
        dispatch@ == (ModelsView::Gemini {
            url: "https://generativelanguage.googleapis.com/v1beta/models"@,
            fields: seq![
                ("x-goog-api-key"@, api_key@),
                ("user-agent"@, PHRASER_USER_AGENT@),
                ("referer"@, PHRASER_REFERER@),
            ],
        }),
{
    let mut fields: Vec<(String, String)> = Vec::new();
    fields.push(("x-goog-api-key".to_string(), api_key.to_string()));
    fields.push(("user-agent".to_string(), PHRASER_USER_AGENT.to_string()));
    fields.push(("referer".to_string(), PHRASER_REFERER.to_string()));
    let ghost shown = fields@.map_values(|h: (String, String)| (h.0@, h.1@));
    assert(shown =~= seq![
        ("x-goog-api-key"@, api_key@),
        ("user-agent"@, PHRASER_USER_AGENT@),
        ("referer"@, PHRASER_REFERER@),
    ]);
    ModelsDispatch::Gemini {
        url: "https://generativelanguage.googleapis.com/v1beta/models".to_string(),
        fields,
    }
}

/// Prepares the request for the models of `provider`.
pub fn fetch_models(provider: &PostProcessProvider, api_key: String) -> (outcome: Result<
    ModelsDispatch,
    String,
>)
    ensures
        models_dispatch_view(outcome) == models_dispatch(*provider, api_key@),
{
    if text::same_text(provider.id.as_str(), PROVIDER_ID_GEMINI) {
        return Ok(fetch_gemini_models(api_key.as_str()));
    }
    let base_url = text::trim_end_slashes(provider.base_url.as_str());
    let url = text::join2(base_url.as_str(), "/models");
    match build_headers(provider, api_key.as_str()) {
        Ok(headers) => Ok(ModelsDispatch::Http { url, headers }),
        Err(message) => Err(message),
    }
}

/// What `pick` finds in the items, in their order.
pub open spec fn picked(
    items: Seq<json::JsonView>,
    pick: spec_fn(json::JsonView) -> Option<Seq<char>>,
) -> Seq<Seq<char>>
    decreases items.len(),
{
    if items.len() == 0 {
        Seq::empty()
    } else {
        let before = picked(items.drop_last(), pick);
        match pick(items.last()) {
            Some(found) => before.push(found),
            None => before,
        }
    }
}

/// The id of an entry, or its name where it has no id.
pub open spec fn entry_id(entry: json::JsonView) -> Option<Seq<char>> {
    match json::json_text_field(entry, "id"@) {
        Some(id) => Some(id),
        None => json::json_text_field(entry, "name"@),
    }
}

/// The id of a Gemini model: its name without the prefix `models/`. Models
/// without `gemini` in their id are passed over.
pub open spec fn gemini_id(entry: json::JsonView) -> Option<Seq<char>> {
    match json::json_text_field(entry, "name"@) {
        Some(name) => {
            let id = text::without_prefix(name, "models/"@);
            if text::has_pattern(id, "gemini"@) {
                Some(id)
            } else {
                None
            }
        },
        None => None,
    }
}

/// The models in the list of an OpenAI-compatible service, which is either an
/// object with the entries under `data`, or an array of ids.
pub open spec fn listed_models(document: json::JsonView) -> Seq<Seq<char>> {
    match json::json_field(document, "data"@) {
        Some(json::JsonView::Array(entries)) => picked(
            entries,
            |entry: json::JsonView| entry_id(entry),
        ),
        _ => match document {
            json::JsonView::Array(ids) => picked(ids, |id: json::JsonView| json::json_text(id)),
            _ => Seq::empty(),
        },
    }
}

/// The models in the list of Gemini.
pub open spec fn gemini_models(document: json::JsonView) -> Seq<Seq<char>> {
    match json::json_field(document, "models"@) {
        Some(json::JsonView::Array(entries)) => picked(
            entries,
            |entry: json::JsonView| gemini_id(entry),
        ),
        _ => Seq::empty(),
    }
}

/// Collects the ids from the list of Gemini.
pub fn gemini_model_ids(parsed: &serde_json::Value) -> (models: Vec<String>)
    ensures
        text::texts(models@) == gemini_models(json::json_view(*parsed)),
{
    let mut models: Vec<String> = Vec::new();
    assert(text::texts(models@) =~= Seq::empty());
    if let Some(list) = json::get(parsed, "models") {
        if let Some(data) = list.as_array() {
            let ghost entries = json::json_views(data@);
            let ghost pick = |entry: json::JsonView| gemini_id(entry);
            let mut i: usize = 0;
            while i < data.len()
                invariant
                    i <= data@.len(),
                    entries == json::json_views(data@),
                    pick == |entry: json::JsonView| gemini_id(entry),
                    text::texts(models@) == picked(entries.take(i as int), pick),
                decreases data@.len() - i,
            {
                let ghost before = models@;
                assert(entries.take(i + 1).drop_last() =~= entries.take(i as int));
                if let Some(name) = json::text_field(&data[i], "name") {
                    let model_id = text::strip_prefix_or_self(name, "models/");
                    if text::contains(model_id.as_str(), "gemini") {
                        let ghost id = model_id@;
                        models.push(model_id);
                        assert(text::texts(models@) =~= text::texts(before).push(id));
                    }
                }
                i += 1;
            }
            assert(entries.take(i as int) =~= entries);
        }
    }
    models
}

/// Collects the ids from the list of an OpenAI-compatible service.
pub fn listed_model_ids(parsed: &serde_json::Value) -> (models: Vec<String>)
    ensures
        text::texts(models@) == listed_models(json::json_view(*parsed)),
        json::json_field(json::json_view(*parsed), "data"@) matches Some(
            json::JsonView::Array(entries),
        ) ==> ((forall|i: int|
            0 <= i < entries.len() ==> json::json_text_field(#[trigger] entries[i], "id"@) is Some)
            ==> models@.len() == entries.len() && (forall|i: int|
            0 <= i < entries.len() ==> json::json_text_field(#[trigger] entries[i], "id"@) == Some(
                models@[i]@,
            ))),
{
    proof {
        lemma_all_ids(json::json_view(*parsed));
    }
    let mut models: Vec<String> = Vec::new();
    assert(text::texts(models@) =~= Seq::empty());
    let data = match json::get(parsed, "data") {
        Some(list) => list.as_array(),
        None => None,
    };
    if let Some(data) = data {
        let ghost entries = json::json_views(data@);
        let ghost pick = |entry: json::JsonView| entry_id(entry);
        let mut i: usize = 0;
        while i < data.len()
            invariant
                i <= data@.len(),
                entries == json::json_views(data@),
                pick == |entry: json::JsonView| entry_id(entry),
                text::texts(models@) == picked(entries.take(i as int), pick),
            decreases data@.len() - i,
        {
            let ghost before = models@;
            assert(entries.take(i + 1).drop_last() =~= entries.take(i as int));
            if let Some(id) = json::text_field(&data[i], "id") {
                models.push(id.to_string());
                assert(text::texts(models@) =~= text::texts(before).push(id@));
            } else if let Some(name) = json::text_field(&data[i], "name") {
                models.push(name.to_string());
                assert(text::texts(models@) =~= text::texts(before).push(name@));
            }
            i += 1;
        }
        assert(entries.take(i as int) =~= entries);
    } else if let Some(array) = parsed.as_array() {
        let ghost ids = json::json_views(array@);
        let ghost pick = |id: json::JsonView| json::json_text(id);
        let mut i: usize = 0;
        while i < array.len()
            invariant
                i <= array@.len(),
                ids == json::json_views(array@),
                pick == |id: json::JsonView| json::json_text(id),
                text::texts(models@) == picked(ids.take(i as int), pick),
            decreases array@.len() - i,
        {
            let ghost before = models@;
            assert(ids.take(i + 1).drop_last() =~= ids.take(i as int));
            if let Some(model) = array[i].as_str() {
                models.push(model.to_string());
                assert(text::texts(models@) =~= text::texts(before).push(model@));
            }
            i += 1;
        }
        assert(ids.take(i as int) =~= ids);
    }
    proof {
        if let Some(json::JsonView::Array(entries)) = json::json_field(
            json::json_view(*parsed),
            "data"@,
        ) {
            if forall|i: int|
                0 <= i < entries.len() ==> json::json_text_field(#[trigger] entries[i], "id"@)
                    is Some {
                assert forall|i: int| 0 <= i < entries.len() implies json::json_text_field(
                    #[trigger] entries[i],
                    "id"@,
                ) == Some(models@[i]@) by {
                    assert(text::texts(models@)[i] == models@[i]@);
                }
            }
        }
    }
    models
}

/// The list of Gemini yields ids of Gemini models only, in the order of the
/// service.
pub proof fn law_gemini_models(document: json::JsonView)
    ensures
        forall|i: int|
            0 <= i < gemini_models(document).len() ==> text::has_pattern(
                #[trigger] gemini_models(document)[i],
                "gemini"@,
            ),
        json::json_field(document, "models"@) matches Some(json::JsonView::Array(entries)) ==> {
            &&& gemini_models(document).len() <= entries.len()
            &&& picks_in_order(
                gemini_models(document),
                entries,
                |entry: json::JsonView| gemini_id(entry),
            )
        },
{
    if let Some(json::JsonView::Array(entries)) = json::json_field(document, "models"@) {
        let pick = |entry: json::JsonView| gemini_id(entry);
        lemma_picked_in_order(entries, pick);
        let from = choose|from: spec_fn(int) -> int|
            #[trigger] comes_in_order(gemini_models(document), entries, pick, from);
        assert forall|i: int| 0 <= i < gemini_models(document).len() implies text::has_pattern(
            #[trigger] gemini_models(document)[i],
            "gemini"@,
        ) by {
            assert(pick(entries[from(i)]) == Some(gemini_models(document)[i]));
        }
    }
}

/// What a request for a list of models comes to.
pub open spec fn models_result(gemini: bool, reply: HttpReply<serde_json::Value>) -> Result<
    Seq<Seq<char>>,
    Seq<char>,
> {
    match reply {
        HttpReply::NoClient(reason) => Err(
            if gemini {
                "Failed to build Gemini HTTP client: "@
            } else {
                "Failed to build HTTP client: "@
            } + reason@,
        ),
        HttpReply::NotSent(reason) => Err(
            if gemini {
                "Failed to fetch Gemini models: "@
            } else {
                "Failed to fetch models: "@
            } + reason@,
        ),
        HttpReply::Refused { status, body } => Err(
            if gemini {
                "Gemini model list request failed ("@
            } else {
                "Model list request failed ("@
            } + headers::status_line(status) + ("): "@ + body_or(body, "Unknown error"@)),
        ),
        HttpReply::Unreadable(reason) => Err(
            if gemini {
                "Failed to parse Gemini response: "@
            } else {
                "Failed to parse response: "@
            } + reason@,
        ),
        HttpReply::Received(document) => Ok(
            if gemini {
                gemini_models(json::json_view(document))
            } else {
                listed_models(json::json_view(document))
            },
        ),
    }
}

/// The model of a list of models that may have failed to arrive.
pub open spec fn models_outcome_view(outcome: Result<Vec<String>, String>) -> Result<
    Seq<Seq<char>>,
    Seq<char>,
> {
    match outcome {
        Ok(models) => Ok(text::texts(models@)),
        Err(message) => Err(message@),
    }
}

/// Reads the reply to a request for a list of models, of Gemini or of another
/// provider.
pub fn models_outcome(gemini: bool, reply: HttpReply<serde_json::Value>) -> (outcome: Result<
    Vec<String>,
    String,
>)
    requires
        has_valid_status(reply),
    ensures
        models_outcome_view(outcome) == models_result(gemini, reply),
{
    match reply {
        HttpReply::NoClient(reason) => {
            let front = if gemini {
                "Failed to build Gemini HTTP client: "
            } else {
                "Failed to build HTTP client: "
            };
            Err(text::join2(front, reason.as_str()))
        },
        HttpReply::NotSent(reason) => {
            let front = if gemini {
                "Failed to fetch Gemini models: "
            } else {
                "Failed to fetch models: "
            };
            Err(text::join2(front, reason.as_str()))
        },
        HttpReply::Refused { status, body } => {
            let front = if gemini {
                "Gemini model list request failed ("
            } else {
                "Model list request failed ("
            };
            let line = headers::status_text(status);
            let shown = body_text(body, "Unknown error");
            let rest = text::join2("): ", shown.as_str());
            Err(text::join3(front, line.as_str(), rest.as_str()))
        },
        HttpReply::Unreadable(reason) => {
            let front = if gemini {
                "Failed to parse Gemini response: "
            } else {
                "Failed to parse response: "
            };
            Err(text::join2(front, reason.as_str()))
        },
        HttpReply::Received(document) => if gemini {
            Ok(gemini_model_ids(&document))
        } else {
            Ok(listed_model_ids(&document))
        },
    }
}

/// Reads the reply to a prepared request for a list of models: as a list of
/// Gemini exactly where the request went to Gemini.
pub fn fetched_models(dispatch: &ModelsDispatch, reply: HttpReply<serde_json::Value>) -> (outcome:
    Result<Vec<String>, String>)
    requires
        has_valid_status(reply),
    ensures
        models_outcome_view(outcome) == models_result(dispatch@ is Gemini, reply),
{
    match dispatch {
        ModelsDispatch::Gemini { .. } => models_outcome(true, reply),
        ModelsDispatch::Http { .. } => models_outcome(false, reply),
    }
}

/// The reply to a request for the models of a provider is read as a list of
/// Gemini exactly where that provider is Gemini.
pub proof fn law_models_reader(provider: PostProcessProvider, api_key: Seq<char>)
    ensures
        models_dispatch(provider, api_key) matches Ok(dispatch) ==> (dispatch is Gemini
            <==> provider.id@ == PROVIDER_ID_GEMINI@),
{
}

/// An exchange yields a result exactly where the service reported success and
/// its answer was understood.
pub proof fn law_only_success_yields(
    chat: HttpReply<ChatCompletionResponse>,
    models: HttpReply<serde_json::Value>,
    gemini: bool,
)
    ensures
        chat_result(chat) is Ok <==> chat is Received,
        models_result(gemini, models) is Ok <==> models is Received,
{
}

/// A list of models keeps the order of the service, and adds nothing to it.
pub proof fn law_listed_models(document: json::JsonView)
    ensures
        json::json_field(document, "data"@) matches Some(json::JsonView::Array(entries)) ==> {
            &&& listed_models(document).len() <= entries.len()
            &&& picks_in_order(
                listed_models(document),
                entries,
                |entry: json::JsonView| entry_id(entry),
            )
        },
        document matches json::JsonView::Array(ids) ==> {
            &&& listed_models(document).len() <= ids.len()
            &&& picks_in_order(
                listed_models(document),
                ids,
                |id: json::JsonView| json::json_text(id),
            )
        },
{
    if let Some(json::JsonView::Array(entries)) = json::json_field(document, "data"@) {
        lemma_picked_in_order(entries, |entry: json::JsonView| entry_id(entry));
    }
    if let json::JsonView::Array(ids) = document {
        lemma_picked_in_order(ids, |id: json::JsonView| json::json_text(id));
    }
}

/// Each of `found` is what `pick` makes of the item at the place that `from`
/// gives, and these places ascend.
pub open spec fn comes_in_order(
    found: Seq<Seq<char>>,
    items: Seq<json::JsonView>,
    pick: spec_fn(json::JsonView) -> Option<Seq<char>>,
    from: spec_fn(int) -> int,
) -> bool {
    &&& forall|i: int|
        0 <= i < found.len() ==> 0 <= #[trigger] from(i) < items.len() && pick(items[from(i)])
            == Some(found[i])
    &&& forall|i: int, j: int|
        0 <= i < j < found.len() ==> #[trigger] from(i) < #[trigger] from(j)
}

/// Each of `found` is what `pick` makes of some item, and they come in the order
/// of the items.
pub open spec fn picks_in_order(
    found: Seq<Seq<char>>,
    items: Seq<json::JsonView>,
    pick: spec_fn(json::JsonView) -> Option<Seq<char>>,
) -> bool {
    exists|from: spec_fn(int) -> int| #[trigger] comes_in_order(found, items, pick, from)
}

proof fn lemma_picked_in_order(
    items: Seq<json::JsonView>,
    pick: spec_fn(json::JsonView) -> Option<Seq<char>>,
)
    ensures
        picked(items, pick).len() <= items.len(),
        picks_in_order(picked(items, pick), items, pick),
    decreases items.len(),
{
    let found = picked(items, pick);
    if items.len() == 0 {
        let from = |i: int| i;
        assert(comes_in_order(found, items, pick, from));
    } else {
        let fewer = items.drop_last();
        lemma_picked_in_order(fewer, pick);
        let before = picked(fewer, pick);
        let earlier = choose|from: spec_fn(int) -> int|
            #[trigger] comes_in_order(before, fewer, pick, from);
        let from = |i: int|
            if i < before.len() {
                earlier(i)
            } else {
                items.len() - 1
            };
        assert forall|i: int| 0 <= i < found.len() implies 0 <= #[trigger] from(i) < items.len()
            && pick(items[from(i)]) == Some(found[i]) by {
            if i < before.len() {
                assert(0 <= earlier(i) < fewer.len());
                assert(items[earlier(i)] == fewer[earlier(i)]);
            }
        }
        assert forall|i: int, j: int| 0 <= i < j < found.len() implies #[trigger] from(i)
            < #[trigger] from(j) by {
            assert(0 <= earlier(i) < fewer.len());
            if j < before.len() {
                assert(earlier(i) < earlier(j));
            }
        }
        assert(comes_in_order(found, items, pick, from));
    }
}

/// What is found in two lists, one after the other, is what is found in the
/// first, then what is found in the second.
proof fn lemma_picked_concat(
    first: Seq<json::JsonView>,
    second: Seq<json::JsonView>,
    pick: spec_fn(json::JsonView) -> Option<Seq<char>>,
)
    ensures
        picked(first + second, pick) == picked(first, pick) + picked(second, pick),
    decreases second.len(),
{
    if second.len() == 0 {
        assert(first + second =~= first);
        assert(picked(first, pick) + picked(second, pick) =~= picked(first, pick));
    } else {
        lemma_picked_concat(first, second.drop_last(), pick);
        assert((first + second).drop_last() =~= first + second.drop_last());
        assert(picked(first + second, pick) =~= picked(first, pick) + picked(second, pick));
    }
}

proof fn lemma_picked_one(
    item: json::JsonView,
    pick: spec_fn(json::JsonView) -> Option<Seq<char>>,
)
    ensures
        picked(seq![item], pick) == match pick(item) {
            Some(found) => seq![found],
            None => Seq::empty(),
        },
{
    assert(seq![item].drop_last() =~= Seq::empty());
    assert(picked(seq![item].drop_last(), pick) =~= Seq::empty());
    if let Some(found) = pick(item) {
        assert(Seq::empty().push(found) =~= seq![found]);
    }
}

/// The list of a document with an array under `data` is made entry by entry:
/// where the array is put together of two others, so is the list.
pub proof fn law_listed_models_concat(
    first: json::JsonView,
    second: json::JsonView,
    whole: json::JsonView,
    one: Seq<json::JsonView>,
    two: Seq<json::JsonView>,
)
    requires
        json::json_field(first, "data"@) == Some(json::JsonView::Array(one)),
        json::json_field(second, "data"@) == Some(json::JsonView::Array(two)),
        json::json_field(whole, "data"@) == Some(json::JsonView::Array(one + two)),
    ensures
        listed_models(whole) == listed_models(first) + listed_models(second),
{
    lemma_picked_concat(one, two, |entry: json::JsonView| entry_id(entry));
}

/// An entry with a text `id` contributes exactly that text, whatever other
/// fields it has; an entry without one contributes its text `name`; every other
/// entry contributes nothing, and so does an empty array.
pub proof fn law_listed_entry(document: json::JsonView, entry: json::JsonView)
    ensures
        json::json_field(document, "data"@) == Some(json::JsonView::Array(seq![entry])) ==> match
        json::json_field(entry, "id"@) {
            Some(json::JsonView::Text(id)) => listed_models(document) == seq![id],
            _ => match json::json_field(entry, "name"@) {
                Some(json::JsonView::Text(name)) => listed_models(document) == seq![name],
                _ => listed_models(document) == Seq::<Seq<char>>::empty(),
            },
        },
        json::json_field(document, "data"@) == Some(json::JsonView::Array(Seq::empty()))
            ==> listed_models(document) == Seq::<Seq<char>>::empty(),
{
    lemma_picked_one(entry, |entry: json::JsonView| entry_id(entry));
}

/// Where every entry has a text `id`, the list is the list of these ids.
pub proof fn law_listed_ids(document: json::JsonView, entries: Seq<json::JsonView>)
    requires
        json::json_field(document, "data"@) == Some(json::JsonView::Array(entries)),
        forall|i: int|
            0 <= i < entries.len() ==> json::json_text_field(#[trigger] entries[i], "id"@) is Some,
    ensures
        listed_models(document).len() == entries.len(),
        forall|i: int|
            0 <= i < entries.len() ==> json::json_text_field(#[trigger] entries[i], "id"@) == Some(
                listed_models(document)[i],
            ),
{
    lemma_all_ids(document);
}

proof fn lemma_all_ids(document: json::JsonView)
    ensures
        json::json_field(document, "data"@) matches Some(json::JsonView::Array(entries)) ==> ((
        forall|i: int|
            0 <= i < entries.len() ==> json::json_text_field(#[trigger] entries[i], "id"@) is Some)
            ==> listed_models(document).len() == entries.len() && (forall|i: int|
            0 <= i < entries.len() ==> json::json_text_field(#[trigger] entries[i], "id"@) == Some(
                listed_models(document)[i],
            ))),
{
    if let Some(json::JsonView::Array(entries)) = json::json_field(document, "data"@) {
        lemma_picked_all(entries);
    }
}

proof fn lemma_picked_all(entries: Seq<json::JsonView>)
    ensures
        (forall|i: int|
            0 <= i < entries.len() ==> json::json_text_field(#[trigger] entries[i], "id"@) is Some)
            ==> ({
            let found = picked(entries, |entry: json::JsonView| entry_id(entry));
            found.len() == entries.len() && forall|i: int|
                0 <= i < entries.len() ==> json::json_text_field(#[trigger] entries[i], "id"@)
                    == Some(found[i])
        }),
    decreases entries.len(),
{
    if entries.len() > 0 && forall|i: int|
        0 <= i < entries.len() ==> json::json_text_field(#[trigger] entries[i], "id"@) is Some {
        let fewer = entries.drop_last();
        assert forall|i: int| 0 <= i < fewer.len() implies json::json_text_field(
            #[trigger] fewer[i],
            "id"@,
        ) is Some by {
            assert(fewer[i] == entries[i]);
        }
        lemma_picked_all(fewer);
        let pick = |entry: json::JsonView| entry_id(entry);
        let before = picked(fewer, pick);
        let found = picked(entries, pick);
        let last = entries[entries.len() - 1];
        assert(json::json_text_field(last, "id"@) is Some);
        assert(pick(entries.last()) == json::json_text_field(last, "id"@));
        assert forall|i: int| 0 <= i < entries.len() implies json::json_text_field(
            #[trigger] entries[i],
            "id"@,
        ) == Some(found[i]) by {
            if i < fewer.len() {
                assert(fewer[i] == entries[i]);
                assert(found[i] == before[i]);
            }
        }
    }
}

/// A document that is an array itself lists its texts, item by item, and passes
/// over everything else. A document of neither shape lists nothing.
pub proof fn law_listed_array(
    one: Seq<json::JsonView>,
    two: Seq<json::JsonView>,
    item: json::JsonView,
    other: json::JsonView,
)
    ensures
        listed_models(json::JsonView::Array(one + two)) == listed_models(json::JsonView::Array(one))
            + listed_models(json::JsonView::Array(two)),
        listed_models(json::JsonView::Array(seq![item])) == (if item is Text {
            seq![item->Text_0]
        } else {
            Seq::empty()
        }),
        listed_models(json::JsonView::Array(Seq::empty())) == Seq::<Seq<char>>::empty(),
        !(json::json_field(other, "data"@) matches Some(json::JsonView::Array(_))) && !(
        other is Array) ==> listed_models(other) == Seq::<Seq<char>>::empty(),
{
    lemma_picked_concat(one, two, |id: json::JsonView| json::json_text(id));
    lemma_picked_one(item, |id: json::JsonView| json::json_text(id));
}

/// The list of Gemini is made entry by entry. An entry contributes its text
/// `name`, without the prefix `models/`, where that holds `gemini`; every other
/// entry contributes nothing, and so does a document without an array under
/// `models`.
pub proof fn law_gemini_list(
    first: json::JsonView,
    second: json::JsonView,
    whole: json::JsonView,
    one: Seq<json::JsonView>,
    two: Seq<json::JsonView>,
    entry: json::JsonView,
)
    ensures
        json::json_field(first, "models"@) == Some(json::JsonView::Array(one)) && json::json_field(
            second,
            "models"@,
        ) == Some(json::JsonView::Array(two)) && json::json_field(whole, "models"@) == Some(
            json::JsonView::Array(one + two),
        ) ==> gemini_models(whole) == gemini_models(first) + gemini_models(second),
        json::json_field(whole, "models"@) == Some(json::JsonView::Array(seq![entry])) ==> match
        json::json_field(entry, "name"@) {
            Some(json::JsonView::Text(name)) => {
                let id = if "models/"@.is_prefix_of(name) {
                    name.skip("models/"@.len() as int)
                } else {
                    name
                };
                gemini_models(whole) == (if text::has_pattern(id, "gemini"@) {
                    seq![id]
                } else {
                    Seq::empty()
                })
            },
            _ => gemini_models(whole) == Seq::<Seq<char>>::empty(),
        },
        json::json_field(whole, "models"@) == Some(json::JsonView::Array(Seq::empty()))
            ==> gemini_models(whole) == Seq::<Seq<char>>::empty(),
        !(json::json_field(whole, "models"@) matches Some(json::JsonView::Array(_)))
            ==> gemini_models(whole) == Seq::<Seq<char>>::empty(),
{
    let pick = |entry: json::JsonView| gemini_id(entry);
    lemma_picked_concat(one, two, pick);
    lemma_picked_one(entry, pick);
}

/// The content of a chat reply is the content of its first answer, however many
/// follow it; a reply without answers has none.
pub proof fn law_first_answer(response: ChatCompletionResponse)
    ensures
        chat_result(HttpReply::Received(response)) == (if response.choices@.len() >= 1 {
            match response.choices@[0].message.content {
                Some(content) => Ok::<Option<Seq<char>>, Seq<char>>(Some(content@)),
                None => Ok::<Option<Seq<char>>, Seq<char>>(None),
            }
        } else {
            Ok::<Option<Seq<char>>, Seq<char>>(None)
        }),
{
}

/// What answers follow the first makes no difference to a chat reply.
pub proof fn law_later_answers_do_not_count(
    response: ChatCompletionResponse,
    other: ChatCompletionResponse,
)
    requires
        response.choices@.len() > 0,
        other.choices@.len() > 0,
        response.choices@[0] == other.choices@[0],
    ensures
        chat_result(HttpReply::Received(response)) == chat_result(HttpReply::Received(other)),
{
}

/// Each failure of a chat request is told by a message of its own, followed by
/// its reason; a refusal tells the status and what the service wrote.
pub proof fn law_chat_failures(reason: String, status: u16, body: String)
    ensures
        chat_result(HttpReply::NoClient(reason)) == Err::<Option<Seq<char>>, Seq<char>>(
            "Failed to build HTTP client: "@ + reason@,
        ),
        chat_result(HttpReply::NotSent(reason)) == Err::<Option<Seq<char>>, Seq<char>>(
            "HTTP request failed: "@ + reason@,
        ),
        chat_result(HttpReply::Refused { status, body: Some(body) }) == Err::<
            Option<Seq<char>>,
            Seq<char>,
        >("API request failed with status "@ + headers::status_line(status) + (": "@ + body@)),
        chat_result(HttpReply::Refused { status, body: None }) == Err::<
            Option<Seq<char>>,
            Seq<char>,
        >(
            "API request failed with status "@ + headers::status_line(status) + (": "@
                + "Failed to read error response"@),
        ),
        chat_result(HttpReply::Unreadable(reason)) == Err::<Option<Seq<char>>, Seq<char>>(
            "Failed to parse API response: "@ + reason@,
        ),
{
}

/// A text that Gemini generates is the answer, unless it is empty.
pub proof fn law_gemini_reply(content: Seq<char>, reason: Seq<char>)
    ensures
        gemini_result(Ok(content)) == (if content.len() > 0 {
            Ok::<Option<Seq<char>>, Seq<char>>(Some(content))
        } else {
            Ok::<Option<Seq<char>>, Seq<char>>(None)
        }),
        gemini_result(Err(reason)) == Err::<Option<Seq<char>>, Seq<char>>(
            "Gemini API error: "@ + reason,
        ),
{
}

/// A list of models is read from what the service sent; each failure is told by
/// a message of its own, which names Gemini where Gemini was asked.
pub proof fn law_models_replies(reason: String, status: u16, body: String, document: serde_json::Value)
    ensures
        models_result(true, HttpReply::Received(document)) == Ok::<Seq<Seq<char>>, Seq<char>>(
            gemini_models(json::json_view(document)),
        ),
        models_result(false, HttpReply::Received(document)) == Ok::<Seq<Seq<char>>, Seq<char>>(
            listed_models(json::json_view(document)),
        ),
        models_result(false, HttpReply::NoClient(reason)) == Err::<Seq<Seq<char>>, Seq<char>>(
            "Failed to build HTTP client: "@ + reason@,
        ),
        models_result(false, HttpReply::NotSent(reason)) == Err::<Seq<Seq<char>>, Seq<char>>(
            "Failed to fetch models: "@ + reason@,
        ),
        models_result(false, HttpReply::Refused { status, body: Some(body) }) == Err::<
            Seq<Seq<char>>,
            Seq<char>,
        >("Model list request failed ("@ + headers::status_line(status) + ("): "@ + body@)),
        models_result(false, HttpReply::Refused { status, body: None }) == Err::<
            Seq<Seq<char>>,
            Seq<char>,
        >(
            "Model list request failed ("@ + headers::status_line(status) + ("): "@
                + "Unknown error"@),
        ),
        models_result(false, HttpReply::Unreadable(reason)) == Err::<Seq<Seq<char>>, Seq<char>>(
            "Failed to parse response: "@ + reason@,
        ),
        models_result(true, HttpReply::NoClient(reason)) == Err::<Seq<Seq<char>>, Seq<char>>(
            "Failed to build Gemini HTTP client: "@ + reason@,
        ),
        models_result(true, HttpReply::NotSent(reason)) == Err::<Seq<Seq<char>>, Seq<char>>(
            "Failed to fetch Gemini models: "@ + reason@,
        ),
        models_result(true, HttpReply::Refused { status, body: Some(body) }) == Err::<
            Seq<Seq<char>>,
            Seq<char>,
        >("Gemini model list request failed ("@ + headers::status_line(status) + ("): "@ + body@)),
        models_result(true, HttpReply::Refused { status, body: None }) == Err::<
            Seq<Seq<char>>,
            Seq<char>,
        >(
            "Gemini model list request failed ("@ + headers::status_line(status) + ("): "@
                + "Unknown error"@),
        ),
        models_result(true, HttpReply::Unreadable(reason)) == Err::<Seq<Seq<char>>, Seq<char>>(
            "Failed to parse Gemini response: "@ + reason@,
        ),
{
}

/// The values of the headers. Every request carries the same four; a key is sent
/// to Anthropic as it is, along with the version, and to every other provider as
/// a bearer token; and nothing else is sent. A key with a control character in it
/// is refused.
pub proof fn law_header_values(provider_id: Seq<char>, api_key: Seq<char>)
    ensures
        ({
            let sent = request_headers(provider_id, api_key);
            let anthropic = provider_id == "anthropic"@;
            let one = |value: Seq<char>| seq![vstd::utf8::encode_utf8(value)];
            let common = Map::<Seq<char>, Seq<Seq<u8>>>::empty().insert(
                "content-type"@,
                one("application/json"@),
            ).insert("referer"@, one("https://github.com/fxbenard/Parler"@)).insert(
                "user-agent"@,
                one("Parler/1.0 (+https://github.com/fxbenard/Parler)"@),
            ).insert("x-title"@, one("Parler"@));
            let sendable = forall|i: int|
                0 <= i < api_key.len() ==> (#[trigger] api_key[i] as u32 >= 32 && api_key[i] as u32
                    != 127) || api_key[i] == '\t';
            &&& api_key.len() == 0 ==> sent == Ok::<Map<Seq<char>, Seq<Seq<u8>>>, Seq<char>>(common)
            &&& api_key.len() > 0 && sendable && anthropic ==> sent == Ok::<
                Map<Seq<char>, Seq<Seq<u8>>>,
                Seq<char>,
            >(
                common.insert("x-api-key"@, one(api_key)).insert(
                    "anthropic-version"@,
                    one("2023-06-01"@),
                ),
            )
            &&& api_key.len() > 0 && sendable && !anthropic ==> sent == Ok::<
                Map<Seq<char>, Seq<Seq<u8>>>,
                Seq<char>,
            >(common.insert("authorization"@, one("Bearer "@ + api_key)))
            &&& !sendable && anthropic ==> sent == Err::<Map<Seq<char>, Seq<Seq<u8>>>, Seq<char>>(
                "Invalid API key header value: "@ + "failed to parse header value"@,
            )
            &&& !sendable && !anthropic ==> sent == Err::<Map<Seq<char>, Seq<Seq<u8>>>, Seq<char>>(
                "Invalid authorization header value: "@ + "failed to parse header value"@,
            )
        }),
{
    let sendable = forall|i: int|
        0 <= i < api_key.len() ==> (#[trigger] api_key[i] as u32 >= 32 && api_key[i] as u32 != 127)
            || api_key[i] == '\t';
    assert(headers::is_header_text(api_key) == sendable) by {
        if sendable {
            assert forall|i: int| 0 <= i < api_key.len() implies headers::is_header_char(
                #[trigger] api_key[i],
            ) by {}
        }
        if headers::is_header_text(api_key) {
            assert forall|i: int| 0 <= i < api_key.len() implies (#[trigger] api_key[i] as u32 >= 32
                && api_key[i] as u32 != 127) || api_key[i] == '\t' by {
                assert(headers::is_header_char(api_key[i]));
            }
        }
    }
}

/// Where a request goes, and what it carries. Gemini gets the key, the model and
/// both texts, an absent system prompt as an empty one. Every other provider gets
/// the conversation below its base address, whose end slashes do not count, in
/// the format that a schema asks for; a key that cannot be sent is the only
/// reason for not asking.
pub proof fn law_chat_dispatch(
    provider: PostProcessProvider,
    api_key: Seq<char>,
    model: Seq<char>,
    user_content: Seq<char>,
    system_prompt: Option<Seq<char>>,
    schema: Option<json::JsonView>,
)
    ensures
        ({
            let sent = chat_dispatch(
                provider,
                api_key,
                model,
                user_content,
                system_prompt,
                schema,
            );
            let user = MessageView { role: "user"@, content: user_content };
            if provider.id@ == "gemini"@ {
                sent == Ok::<DispatchView, Seq<char>>(
                    DispatchView::Gemini {
                        api_key,
                        model,
                        system_prompt: match system_prompt {
                            Some(system) => system,
                            None => Seq::empty(),
                        },
                        user_content,
                    },
                )
            } else {
                match request_headers(provider.id@, api_key) {
                    Err(message) => sent == Err::<DispatchView, Seq<char>>(message),
                    Ok(entries) => sent == Ok::<DispatchView, Seq<char>>(
                        DispatchView::Http {
                            url: text::without_end_slashes(provider.base_url@)
                                + "/chat/completions"@,
                            headers: entries,
                            body: RequestView {
                                model,
                                messages: match system_prompt {
                                    Some(system) => seq![
                                        MessageView { role: "system"@, content: system },
                                        user,
                                    ],
                                    None => seq![user],
                                },
                                response_format: match schema {
                                    Some(schema) => Some(
                                        FormatView {
                                            format_type: "json_schema"@,
                                            name: "transcription_output"@,
                                            strict: true,
                                            schema,
                                        },
                                    ),
                                    None => None,
                                },
                            },
                        },
                    ),
                }
            }
        }),
{
}

/// Where a list of models is asked for: of Gemini at its own address with the
/// key in a header of its own, of every other provider below its base address
/// with the headers of a chat request.
pub proof fn law_models_dispatch(provider: PostProcessProvider, api_key: Seq<char>)
    ensures
        provider.id@ == "gemini"@ ==> models_dispatch(provider, api_key) == Ok::<
            ModelsView,
            Seq<char>,
        >(
            ModelsView::Gemini {
                url: "https://generativelanguage.googleapis.com/v1beta/models"@,
                fields: seq![
                    ("x-goog-api-key"@, api_key),
                    ("user-agent"@, "Parler/1.0 (+https://github.com/fxbenard/Parler)"@),
                    ("referer"@, "https://github.com/fxbenard/Parler"@),
                ],
            },
        ),
        provider.id@ != "gemini"@ ==> match request_headers(provider.id@, api_key) {
            Ok(entries) => models_dispatch(provider, api_key) == Ok::<ModelsView, Seq<char>>(
                ModelsView::Http {
                    url: text::without_end_slashes(provider.base_url@) + "/models"@,
                    headers: entries,
                },
            ),
            Err(message) => models_dispatch(provider, api_key) == Err::<ModelsView, Seq<char>>(
                message,
            ),
        },
{
}

/// The models of the outcomes tell success from failure, and hold what was
/// prepared, found, or said to be wrong.
pub proof fn law_outcome_models(
    map: reqwest::header::HeaderMap,
    chat: ChatDispatch,
    models: ModelsDispatch,
    list: Vec<String>,
    schema: serde_json::Value,
    message: String,
)
    ensures
        headers_view(Ok(map)) == Ok::<Map<Seq<char>, Seq<Seq<u8>>>, Seq<char>>(
            headers::header_entries(map),
        ),
        headers_view(Err(message)) == Err::<Map<Seq<char>, Seq<Seq<u8>>>, Seq<char>>(message@),
        dispatch_view(Ok(chat)) == Ok::<DispatchView, Seq<char>>(chat@),
        dispatch_view(Err(message)) == Err::<DispatchView, Seq<char>>(message@),
        models_dispatch_view(Ok(models)) == Ok::<ModelsView, Seq<char>>(models@),
        models_dispatch_view(Err(message)) == Err::<ModelsView, Seq<char>>(message@),
        models_outcome_view(Ok(list)) == Ok::<Seq<Seq<char>>, Seq<char>>(text::texts(list@)),
        models_outcome_view(Err(message)) == Err::<Seq<Seq<char>>, Seq<char>>(message@),
        opt_json(Some(schema)) == Some(json::json_view(schema)),
        opt_json(None) is None,
{
}

}
