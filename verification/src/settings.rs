//! The settings that the post-processing pipeline reads.
use crate::text;
use vstd::hash_map::StringHashMap;
use vstd::prelude::*;

verus! {

/// Id of the provider whose models run on the device.
pub const APPLE_INTELLIGENCE_PROVIDER_ID: &'static str = "apple_intelligence";

/// Id of the Anthropic provider.
pub const PROVIDER_ID_ANTHROPIC: &'static str = "anthropic";

/// Id of the Gemini provider.
pub const PROVIDER_ID_GEMINI: &'static str = "gemini";

/// Id of the OpenAI provider.
pub const PROVIDER_ID_OPENAI: &'static str = "openai";

/// Language code of Simplified Chinese.
pub const LANG_SIMPLIFIED_CHINESE: &'static str = "zh-Hans";

/// Language code of Traditional Chinese.
pub const LANG_TRADITIONAL_CHINESE: &'static str = "zh-Hant";

/// Clones an optional text.
pub fn clone_opt(text: &Option<String>) -> (copy: Option<String>)
    ensures
        copy == *text,
{
    match text {
        Some(text) => Some(text.clone()),
        None => None,
    }
}

// ---------------------------------------------------------------------------
// Maps keyed by text
// ---------------------------------------------------------------------------

/// A map from texts to values.
#[verifier::reject_recursive_types(V)]
pub struct TextMap<V> {
    entries: StringHashMap<V>,
}

impl<V> View for TextMap<V> {
    type V = Map<Seq<char>, V>;

    closed spec fn view(&self) -> Map<Seq<char>, V> {
        self.entries@
    }
}

impl<V> TextMap<V> {
    /// The empty map.
    pub fn new() -> (map: Self)
        ensures
            map@ == Map::<Seq<char>, V>::empty(),
    {
        TextMap { entries: StringHashMap::new() }
    }

    /// The value of `key`.
    pub fn get(&self, key: &str) -> (value: Option<&V>)
        ensures
            match value {
                Some(value) => self@.contains_key(key@) && self@[key@] == *value,
                None => !self@.contains_key(key@),
            },
    {
        self.entries.get(key)
    }

    /// Whether `key` has a value.
    pub fn contains_key(&self, key: &str) -> (found: bool)
        ensures
            found == self@.contains_key(key@),
    {
        self.entries.contains_key(key)
    }

    /// Gives `key` the value `value`, in place of the one it may have had.
    pub fn insert(&mut self, key: String, value: V)
        ensures
            final(self)@ == old(self)@.insert(key@, value),
    {
        self.entries.insert(key, value);
    }
}

// ---------------------------------------------------------------------------
// Providers, prompts and actions
// ---------------------------------------------------------------------------

/// A service that answers chat requests.
pub struct PostProcessProvider {
    pub id: String,
    pub label: String,
    pub base_url: String,
    pub allow_base_url_edit: bool,
    pub requires_api_key: bool,
    pub models_endpoint: Option<String>,
    pub supports_structured_output: bool,
}

impl Clone for PostProcessProvider {
    fn clone(&self) -> (copy: Self)
        ensures
            copy == *self,
    {
        PostProcessProvider {
            id: self.id.clone(),
            label: self.label.clone(),
            base_url: self.base_url.clone(),
            allow_base_url_edit: self.allow_base_url_edit,
            requires_api_key: self.requires_api_key,
            models_endpoint: clone_opt(&self.models_endpoint),
            supports_structured_output: self.supports_structured_output,
        }
    }
}

/// A prompt template that the user may select.
pub struct PostProcessPrompt {
    pub id: String,
    pub name: String,
    pub prompt: String,
}

/// A prompt bound to a key, with an optional model and provider of its own.
pub struct PostProcessAction {
    pub key: u8,
    pub name: String,
    pub prompt: String,
    pub model: Option<String>,
    pub provider_id: Option<String>,
}

impl Clone for PostProcessAction {
    fn clone(&self) -> (copy: Self)
        ensures
            copy == *self,
    {
        PostProcessAction {
            key: self.key,
            name: self.name.clone(),
            prompt: self.prompt.clone(),
            model: clone_opt(&self.model),
            provider_id: clone_opt(&self.provider_id),
        }
    }
}

/// How long recordings are kept.
#[derive(Debug, Clone, Copy, PartialEq, Eq, Structural)]
pub enum RecordingRetentionPeriod {
    Never,
    PreserveLimit,
    Days3,
    Weeks2,
    Months3,
}

/// The settings of the application, as far as the pipeline reads or writes them.
pub struct AppSettings {
    pub always_on_microphone: bool,
    pub selected_language: String,
    pub long_audio_model: Option<String>,
    pub post_process_provider_id: String,
    pub post_process_providers: Vec<PostProcessProvider>,
    pub post_process_models: TextMap<String>,
    pub post_process_api_keys: TextMap<String>,
    pub post_process_prompts: Vec<PostProcessPrompt>,
    pub post_process_selected_prompt_id: Option<String>,
    pub post_process_actions: Vec<PostProcessAction>,
    pub history_limit: usize,
    pub recording_retention_period: RecordingRetentionPeriod,
}

/// The first item of `list` that satisfies `wanted`.
pub open spec fn first_where<T>(list: Seq<T>, wanted: spec_fn(T) -> bool) -> Option<T>
    decreases list.len(),
{
    if list.len() == 0 {
        None
    } else if wanted(list.first()) {
        Some(list.first())
    } else {
        first_where(list.drop_first(), wanted)
    }
}

/// The provider with the id `id`: the first one, where several have it.
pub open spec fn provider_with_id(settings: AppSettings, id: Seq<char>) -> Option<
    PostProcessProvider,
> {
    first_where(settings.post_process_providers@, |p: PostProcessProvider| p.id@ == id)
}

/// The provider that the settings select.
pub open spec fn active_provider(settings: AppSettings) -> Option<PostProcessProvider> {
    provider_with_id(settings, settings.post_process_provider_id@)
}

/// The template of the selected prompt.
pub open spec fn selected_prompt(settings: AppSettings) -> Option<Seq<char>> {
    match settings.post_process_selected_prompt_id {
        Some(id) => match first_where(
            settings.post_process_prompts@,
            |p: PostProcessPrompt| p.id@ == id@,
        ) {
            Some(prompt) => Some(prompt.prompt@),
            None => None,
        },
        None => None,
    }
}

/// The action bound to the key `key`: the first one, where several have it.
pub open spec fn action_with_key(settings: AppSettings, key: u8) -> Option<PostProcessAction> {
    first_where(settings.post_process_actions@, |a: PostProcessAction| a.key == key)
}

/// The text that `map` gives `key`, or the empty text.
pub open spec fn text_or_empty(map: Map<Seq<char>, String>, key: Seq<char>) -> Seq<char> {
    if map.contains_key(key) {
        map[key]@
    } else {
        Seq::empty()
    }
}

/// Looks `key` up, with the empty text where it is missing.
pub fn get_or_empty(map: &TextMap<String>, key: &str) -> (value: String)
    ensures
        value@ == text_or_empty(map@, key@),
{
    match map.get(key) {
        Some(value) => value.clone(),
        None => String::new(),
    }
}

impl AppSettings {
    /// Finds a provider by its id.
    pub fn post_process_provider(&self, id: &str) -> (provider: Option<&PostProcessProvider>)
        ensures
            match provider {
                Some(provider) => provider_with_id(*self, id@) == Some(*provider),
                None => provider_with_id(*self, id@) is None,
            },
    {
        let ghost wanted = |p: PostProcessProvider| p.id@ == id@;
        let providers = &self.post_process_providers;
        let mut i: usize = 0;
        assert(providers@.skip(0) =~= providers@);
        while i < providers.len()
            invariant
                i <= providers@.len(),
                wanted == |p: PostProcessProvider| p.id@ == id@,
                first_where(providers@, wanted) == first_where(providers@.skip(i as int), wanted),
                *providers == self.post_process_providers,
            decreases providers@.len() - i,
        {
            if text::same_text(providers[i].id.as_str(), id) {
                return Some(&providers[i]);
            }
            assert(providers@.skip(i as int).drop_first() =~= providers@.skip(i + 1));
            i += 1;
        }
        None
    }

    /// The provider that is selected for post-processing.
    pub fn active_post_process_provider(&self) -> (provider: Option<&PostProcessProvider>)
        ensures
            match provider {
                Some(provider) => active_provider(*self) == Some(*provider),
                None => active_provider(*self) is None,
            },
    {
        self.post_process_provider(self.post_process_provider_id.as_str())
    }

    /// The template of the selected prompt, where one is selected and it exists.
    pub fn selected_prompt(&self) -> (prompt: Option<String>)
        ensures
            text::opt_text(prompt) == selected_prompt(*self),
    {
        let id = match &self.post_process_selected_prompt_id {
            Some(id) => id,
            None => return None,
        };
        let ghost wanted = |p: PostProcessPrompt| p.id@ == id@;
        let prompts = &self.post_process_prompts;
        let mut i: usize = 0;
        assert(prompts@.skip(0) =~= prompts@);
        while i < prompts.len()
            invariant
                i <= prompts@.len(),
                wanted == |p: PostProcessPrompt| p.id@ == id@,
                first_where(prompts@, wanted) == first_where(prompts@.skip(i as int), wanted),
                *prompts == self.post_process_prompts,
                self.post_process_selected_prompt_id == Some(*id),
            decreases prompts@.len() - i,
        {
            if text::same_text(prompts[i].id.as_str(), id.as_str()) {
                return Some(prompts[i].prompt.clone());
            }
            assert(prompts@.skip(i as int).drop_first() =~= prompts@.skip(i + 1));
            i += 1;
        }
        None
    }

    /// The action that is bound to `key`.
    pub fn action_for_key(&self, key: u8) -> (action: Option<PostProcessAction>)
        ensures
            action == action_with_key(*self, key),
    {
        let ghost wanted = |a: PostProcessAction| a.key == key;
        let actions = &self.post_process_actions;
        let mut i: usize = 0;
        assert(actions@.skip(0) =~= actions@);
        while i < actions.len()
            invariant
                i <= actions@.len(),
                wanted == |a: PostProcessAction| a.key == key,
                first_where(actions@, wanted) == first_where(actions@.skip(i as int), wanted),
                *actions == self.post_process_actions,
            decreases actions@.len() - i,
        {
            if actions[i].key == key {
                return Some(actions[i].clone());
            }
            assert(actions@.skip(i as int).drop_first() =~= actions@.skip(i + 1));
            i += 1;
        }
        None
    }
}

// ---------------------------------------------------------------------------
// Laws
// ---------------------------------------------------------------------------

/// The first item that is wanted is wanted, and none before it is; there is none
/// exactly where no item is wanted.
pub proof fn law_first_where<T>(list: Seq<T>, wanted: spec_fn(T) -> bool)
    ensures
        match first_where(list, wanted) {
            Some(found) => wanted(found) && exists|i: int|
                0 <= i < list.len() && #[trigger] list[i] == found && (forall|j: int|
                    0 <= j < i ==> !wanted(#[trigger] list[j])),
            None => forall|j: int| 0 <= j < list.len() ==> !wanted(#[trigger] list[j]),
        },
    decreases list.len(),
{
    if list.len() > 0 && !wanted(list.first()) {
        let rest = list.drop_first();
        law_first_where(rest, wanted);
        match first_where(rest, wanted) {
            Some(found) => {
                let i = choose|i: int|
                    0 <= i < rest.len() && #[trigger] rest[i] == found && (forall|j: int|
                        0 <= j < i ==> !wanted(#[trigger] rest[j]));
                assert(list[i + 1] == found);
                assert forall|j: int| 0 <= j < i + 1 implies !wanted(#[trigger] list[j]) by {
                    if j > 0 {
                        assert(rest[j - 1] == list[j]);
                    }
                }
            },
            None => {
                assert forall|j: int| 0 <= j < list.len() implies !wanted(#[trigger] list[j]) by {
                    if j > 0 {
                        assert(rest[j - 1] == list[j]);
                    }
                }
            },
        }
    } else if list.len() > 0 {
        assert(list[0] == list.first());
    }
}

spec fn has_id(id: Seq<char>) -> spec_fn(PostProcessProvider) -> bool {
    |p: PostProcessProvider| p.id@ == id
}

/// A provider is found by its id, the first one where several have it; the
/// active one is the one that the settings name, and no other takes its place.
pub proof fn law_providers(settings: AppSettings, id: Seq<char>)
    ensures
        match provider_with_id(settings, id) {
            Some(found) => found.id@ == id && exists|i: int|
                0 <= i < settings.post_process_providers@.len()
                    && #[trigger] settings.post_process_providers@[i] == found && (forall|j: int|
                    0 <= j < i ==> (#[trigger] settings.post_process_providers@[j]).id@ != id),
            None => forall|j: int|
                0 <= j < settings.post_process_providers@.len() ==> (
                #[trigger] settings.post_process_providers@[j]).id@ != id,
        },
        id == settings.post_process_provider_id@ ==> active_provider(settings) == provider_with_id(
            settings,
            id,
        ),
{
    let wanted = has_id(id);
    let list = settings.post_process_providers@;
    law_first_where(list, wanted);
    match provider_with_id(settings, id) {
        Some(found) => {
            let i = choose|i: int|
                0 <= i < list.len() && #[trigger] list[i] == found && (forall|j: int|
                    0 <= j < i ==> !wanted(#[trigger] list[j]));
            assert forall|j: int| 0 <= j < i implies (#[trigger] list[j]).id@ != id by {
                assert(!wanted(list[j]));
            }
        },
        None => {
            assert forall|j: int| 0 <= j < list.len() implies (#[trigger] list[j]).id@ != id by {
                assert(!wanted(list[j]));
            }
        },
    }
}

/// The selected prompt is the text of the first prompt with the selected id.
/// There is none where nothing is selected or no prompt has that id.
pub proof fn law_selected_prompt(settings: AppSettings)
    ensures
        match (settings.post_process_selected_prompt_id, selected_prompt(settings)) {
            (None, found) => found is None,
            (Some(id), Some(found)) => exists|i: int|
                0 <= i < settings.post_process_prompts@.len() && (
                #[trigger] settings.post_process_prompts@[i]).prompt@ == found
                    && settings.post_process_prompts@[i].id@ == id@ && (forall|j: int|
                    0 <= j < i ==> (#[trigger] settings.post_process_prompts@[j]).id@ != id@),
            (Some(id), None) => forall|j: int|
                0 <= j < settings.post_process_prompts@.len() ==> (
                #[trigger] settings.post_process_prompts@[j]).id@ != id@,
        },
{
    if let Some(id) = settings.post_process_selected_prompt_id {
        let wanted = |p: PostProcessPrompt| p.id@ == id@;
        let list = settings.post_process_prompts@;
        law_first_where(list, wanted);
        match first_where(list, wanted) {
            Some(found) => {
                let i = choose|i: int|
                    0 <= i < list.len() && #[trigger] list[i] == found && (forall|j: int|
                        0 <= j < i ==> !wanted(#[trigger] list[j]));
                assert forall|j: int| 0 <= j < i implies (#[trigger] list[j]).id@ != id@ by {
                    assert(!wanted(list[j]));
                }
                assert(list[i].prompt@ == found.prompt@);
            },
            None => {
                assert forall|j: int| 0 <= j < list.len() implies (#[trigger] list[j]).id@
                    != id@ by {
                    assert(!wanted(list[j]));
                }
            },
        }
    }
}

/// An action is found by its key, the first one where several have it.
pub proof fn law_action_with_key(settings: AppSettings, key: u8)
    ensures
        match action_with_key(settings, key) {
            Some(found) => found.key == key && exists|i: int|
                0 <= i < settings.post_process_actions@.len()
                    && #[trigger] settings.post_process_actions@[i] == found && (forall|j: int|
                    0 <= j < i ==> (#[trigger] settings.post_process_actions@[j]).key != key),
            None => forall|j: int|
                0 <= j < settings.post_process_actions@.len() ==> (
                #[trigger] settings.post_process_actions@[j]).key != key,
        },
{
    let wanted = |a: PostProcessAction| a.key == key;
    let list = settings.post_process_actions@;
    law_first_where(list, wanted);
    match action_with_key(settings, key) {
        Some(found) => {
            let i = choose|i: int|
                0 <= i < list.len() && #[trigger] list[i] == found && (forall|j: int|
                    0 <= j < i ==> !wanted(#[trigger] list[j]));
            assert forall|j: int| 0 <= j < i implies (#[trigger] list[j]).key != key by {
                assert(!wanted(list[j]));
            }
        },
        None => {
            assert forall|j: int| 0 <= j < list.len() implies (#[trigger] list[j]).key != key by {
                assert(!wanted(list[j]));
            }
        },
    }
}

/// A text that was stored under a key is what is read under it, and only under
/// it; a key under which nothing was stored reads as the empty text.
pub proof fn law_text_or_empty(
    map: Map<Seq<char>, String>,
    key: Seq<char>,
    other: Seq<char>,
    value: String,
)
    ensures
        text_or_empty(map.insert(key, value), key) == value@,
        other != key ==> text_or_empty(map.insert(key, value), other) == text_or_empty(map, other),
        text_or_empty(map.remove(key), key) == Seq::<char>::empty(),
{
}

}
