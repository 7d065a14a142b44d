//! The actions behind the shortcuts: what a press and a release set in motion.
//!
//! The functions of this module decide what is to be done, in which order. The
//! doing, and what it found, are the caller's.
use crate::settings::{AppSettings, TextMap};
use vstd::prelude::*;

verus! {

/// The key of the action that was selected while recording, if any.
pub struct ActiveActionState(pub Option<u8>);

impl ActiveActionState {
    /// Reads and clears the selected key.
    pub fn take(&mut self) -> (key: Option<u8>)
        ensures
            key == old(self).0,
            final(self).0 is None,
    {
        self.0.take()
    }
}

/// The state that the tray icon shows.
#[derive(Debug, Clone, Copy, PartialEq, Eq, Structural)]
pub enum TrayIconState {
    Idle,
    Recording,
    Transcribing,
}

/// The overlay over the other windows.
#[derive(Debug, Clone, Copy, PartialEq, Eq, Structural)]
pub enum Overlay {
    Recording,
    Transcribing,
    Processing,
}

/// Something to be done at once, whose outcome decides nothing.
#[derive(Debug, Clone, Copy, PartialEq, Eq, Structural)]
pub enum Effect {
    SaveFrontmostApp,
    RestoreFrontmostApp,
    InitiateModelLoad,
    SetTray(TrayIconState),
    ShowOverlay(Overlay),
    HideOverlay,
    /// In the background: wait, play the start sound to its end, then mute.
    StartSoundThenMute { delay_ms: u64 },
    StopSound,
    RemoveMute,
    RegisterCancelShortcut,
    RegisterPauseShortcut,
    RegisterActionShortcuts,
    ResetCancelConfirmation,
    UnregisterCancelShortcut,
    UnregisterPauseShortcut,
    UnregisterActionShortcuts,
}

// ---------------------------------------------------------------------------
// The map of actions
// ---------------------------------------------------------------------------

/// Records, transcribes and pastes.
#[derive(Debug, Clone, Copy, PartialEq, Eq, Structural)]
pub struct TranscribeAction {
    pub post_process: bool,
}

/// What a shortcut may be bound to.
#[derive(Debug, Clone, Copy, PartialEq, Eq, Structural)]
pub enum BoundAction {
    Transcribe(TranscribeAction),
    /// Cancels the current operation on a press.
    Cancel,
    /// Writes presses and releases to the log.
    Test,
}

/// The actions by the id of their binding.
pub open spec fn bound_actions() -> Map<Seq<char>, BoundAction> {
    map![
        "transcribe"@ => BoundAction::Transcribe(TranscribeAction { post_process: false }),
        "transcribe_with_post_process"@ => BoundAction::Transcribe(
            TranscribeAction { post_process: true },
        ),
        "cancel"@ => BoundAction::Cancel,
        "test"@ => BoundAction::Test,
    ]
}

/// Builds the map of actions.
pub fn action_map() -> (actions: TextMap<BoundAction>)
    ensures
        actions@ == bound_actions(),
{
    let mut actions: TextMap<BoundAction> = TextMap::new();
    actions.insert(
        "transcribe".to_string(),
        BoundAction::Transcribe(TranscribeAction { post_process: false }),
    );
    actions.insert(
        "transcribe_with_post_process".to_string(),
        BoundAction::Transcribe(TranscribeAction { post_process: true }),
    );
    actions.insert("cancel".to_string(), BoundAction::Cancel);
    actions.insert("test".to_string(), BoundAction::Test);
    actions
}

/// The four bindings are bound to four different actions, and nothing else is
/// bound.
pub proof fn law_bound_actions(binding_id: Seq<char>)
    ensures
        bound_actions().contains_key(binding_id) <==> binding_id == "transcribe"@ || binding_id
            == "transcribe_with_post_process"@ || binding_id == "cancel"@ || binding_id == "test"@,
        bound_actions()["transcribe"@] == BoundAction::Transcribe(
            TranscribeAction { post_process: false },
        ),
        bound_actions()["transcribe_with_post_process"@] == BoundAction::Transcribe(
            TranscribeAction { post_process: true },
        ),
        bound_actions()["cancel"@] == BoundAction::Cancel,
        bound_actions()["test"@] == BoundAction::Test,
{
    reveal_strlit("transcribe");
    reveal_strlit("transcribe_with_post_process");
    reveal_strlit("cancel");
    reveal_strlit("test");
    assert("transcribe"@.len() == 10);
    assert("transcribe_with_post_process"@.len() == 28);
    assert("cancel"@.len() == 6);
    assert("test"@.len() == 4);
}

// ---------------------------------------------------------------------------
// Press
// ---------------------------------------------------------------------------

/// What is done before the recording is tried. With the microphone always on,
/// the start sound is played at once. The application in front is remembered
/// before anything is shown, where the platform is a Mac.
pub open spec fn press_effects(always_on: bool, macos: bool) -> Seq<Effect> {
    (if macos {
        seq![Effect::SaveFrontmostApp]
    } else {
        Seq::empty()
    }) + seq![
        Effect::InitiateModelLoad,
        Effect::SetTray(TrayIconState::Recording),
        Effect::ShowOverlay(Overlay::Recording),
    ] + (if always_on {
        seq![Effect::StartSoundThenMute { delay_ms: 0 }]
    } else {
        Seq::empty()
    })
}

/// What is done once the recording was tried. With the microphone on demand, the
/// start sound is played a moment after it has become active.
pub open spec fn tried_effects(always_on: bool, started: bool) -> Seq<Effect> {
    if !started {
        Seq::empty()
    } else {
        (if always_on {
            Seq::empty()
        } else {
            seq![Effect::StartSoundThenMute { delay_ms: 100 }]
        }) + seq![
            Effect::RegisterCancelShortcut,
            Effect::RegisterPauseShortcut,
            Effect::RegisterActionShortcuts,
        ]
    }
}

/// What is done on a release, before the recording is stopped.
pub open spec fn release_effects() -> Seq<Effect> {
    seq![
        Effect::ResetCancelConfirmation,
        Effect::UnregisterCancelShortcut,
        Effect::UnregisterPauseShortcut,
        Effect::UnregisterActionShortcuts,
        Effect::SetTray(TrayIconState::Transcribing),
        Effect::ShowOverlay(Overlay::Transcribing),
        Effect::RemoveMute,
        Effect::StopSound,
    ]
}

impl TranscribeAction {
    /// A press: what is to be done before the recording is tried.
    pub fn start(&self, settings: &AppSettings, macos: bool) -> (effects: Vec<Effect>)
        ensures
            effects@ == press_effects(settings.always_on_microphone, macos),
    {
        let mut effects: Vec<Effect> = Vec::new();
        if macos {
            effects.push(Effect::SaveFrontmostApp);
        }
        effects.push(Effect::InitiateModelLoad);
        effects.push(Effect::SetTray(TrayIconState::Recording));
        effects.push(Effect::ShowOverlay(Overlay::Recording));
        if settings.always_on_microphone {
            effects.push(Effect::StartSoundThenMute { delay_ms: 0 });
        }
        effects
    }

    /// What is to be done once the recording was tried.
    pub fn recording_tried(&self, settings: &AppSettings, started: bool) -> (effects: Vec<Effect>)
        ensures
            effects@ == tried_effects(settings.always_on_microphone, started),
    {
        let mut effects: Vec<Effect> = Vec::new();
        if started {
            if !settings.always_on_microphone {
                effects.push(Effect::StartSoundThenMute { delay_ms: 100 });
            }
            effects.push(Effect::RegisterCancelShortcut);
            effects.push(Effect::RegisterPauseShortcut);
            effects.push(Effect::RegisterActionShortcuts);
        }
        effects
    }

    /// A release: what is to be done before the selected key is taken and the
    /// recording is stopped.
    pub fn stop(&self) -> (effects: Vec<Effect>)
        ensures
            effects@ == release_effects(),
    {
        let mut effects: Vec<Effect> = Vec::new();
        effects.push(Effect::ResetCancelConfirmation);
        effects.push(Effect::UnregisterCancelShortcut);
        effects.push(Effect::UnregisterPauseShortcut);
        effects.push(Effect::UnregisterActionShortcuts);
        effects.push(Effect::SetTray(TrayIconState::Transcribing));
        effects.push(Effect::ShowOverlay(Overlay::Transcribing));
        effects.push(Effect::RemoveMute);
        effects.push(Effect::StopSound);
        effects
    }
}

/// Whether an effect plays the start sound and mutes.
pub open spec fn is_start_sound(effect: Effect) -> bool {
    effect is StartSoundThenMute
}

/// The start sound is played, and the sound muted after it, at most once: before
/// the recording is tried where the microphone is always on, otherwise only
/// after it has started.
pub proof fn law_start_sound(always_on: bool, macos: bool, started: bool)
    ensures
        (exists|i: int|
            0 <= i < press_effects(always_on, macos).len() && is_start_sound(
                #[trigger] press_effects(always_on, macos)[i],
            )) <==> always_on,
        (exists|i: int|
            0 <= i < tried_effects(always_on, started).len() && is_start_sound(
                #[trigger] tried_effects(always_on, started)[i],
            )) <==> !always_on && started,
        forall|i: int, j: int|
            0 <= i < j < press_effects(always_on, macos).len() ==> !(is_start_sound(
                #[trigger] press_effects(always_on, macos)[i],
            ) && is_start_sound(#[trigger] press_effects(always_on, macos)[j])),
        forall|i: int, j: int|
            0 <= i < j < tried_effects(always_on, started).len() ==> !(is_start_sound(
                #[trigger] tried_effects(always_on, started)[i],
            ) && is_start_sound(#[trigger] tried_effects(always_on, started)[j])),
{
    let press = press_effects(always_on, macos);
    let tried = tried_effects(always_on, started);
    if always_on {
        assert(is_start_sound(press[press.len() - 1]));
    }
    if !always_on && started {
        assert(is_start_sound(tried[0]));
    }
}

/// The shortcuts of a recording are registered exactly where it started. A
/// release unregisters each of them, and unmutes before the stop sound.
pub proof fn law_shortcuts(always_on: bool, macos: bool, started: bool)
    ensures
        tried_effects(always_on, started).contains(Effect::RegisterCancelShortcut) <==> started,
        tried_effects(always_on, started).contains(Effect::RegisterPauseShortcut) <==> started,
        tried_effects(always_on, started).contains(Effect::RegisterActionShortcuts) <==> started,
        !press_effects(always_on, macos).contains(Effect::RegisterCancelShortcut),
        !press_effects(always_on, macos).contains(Effect::RegisterPauseShortcut),
        !press_effects(always_on, macos).contains(Effect::RegisterActionShortcuts),
        release_effects().contains(Effect::UnregisterCancelShortcut),
        release_effects().contains(Effect::UnregisterPauseShortcut),
        release_effects().contains(Effect::UnregisterActionShortcuts),
        exists|i: int, j: int|
            0 <= i < j < release_effects().len() && #[trigger] release_effects()[i]
                == Effect::RemoveMute && #[trigger] release_effects()[j] == Effect::StopSound,
{
    let tried = tried_effects(always_on, started);
    if started {
        let at = tried.len() - 3;
        assert(tried[at] == Effect::RegisterCancelShortcut);
        assert(tried[at + 1] == Effect::RegisterPauseShortcut);
        assert(tried[at + 2] == Effect::RegisterActionShortcuts);
    }
    let release = release_effects();
    assert(release[1] == Effect::UnregisterCancelShortcut);
    assert(release[2] == Effect::UnregisterPauseShortcut);
    assert(release[3] == Effect::UnregisterActionShortcuts);
    assert(release[6] == Effect::RemoveMute && release[7] == Effect::StopSound);
}

/// Where the platform is a Mac, the application in front is remembered first of
/// all, before anything is shown that could take its place.
pub proof fn law_frontmost_first(always_on: bool)
    ensures
        press_effects(always_on, true)[0] == Effect::SaveFrontmostApp,
        !press_effects(always_on, false).contains(Effect::SaveFrontmostApp),
        press_effects(always_on, true).skip(1) == press_effects(always_on, false),
{
    assert(press_effects(always_on, true).skip(1) =~= press_effects(always_on, false));
}

/// What a press does before the recording is tried: the model starts to load,
/// then the icon and the overlay show the recording, always in this order.
pub proof fn law_press_order(always_on: bool)
    ensures
        press_effects(always_on, false).take(3) == seq![
            Effect::InitiateModelLoad,
            Effect::SetTray(TrayIconState::Recording),
            Effect::ShowOverlay(Overlay::Recording),
        ],
        press_effects(always_on, false).skip(3) == (if always_on {
            seq![Effect::StartSoundThenMute { delay_ms: 0 }]
        } else {
            Seq::empty()
        }),
        tried_effects(always_on, false) == Seq::<Effect>::empty(),
        tried_effects(true, true) == seq![
            Effect::RegisterCancelShortcut,
            Effect::RegisterPauseShortcut,
            Effect::RegisterActionShortcuts,
        ],
        tried_effects(false, true) == seq![Effect::StartSoundThenMute { delay_ms: 100 }]
            + tried_effects(true, true),
{
    assert(press_effects(always_on, false).take(3) =~= seq![
        Effect::InitiateModelLoad,
        Effect::SetTray(TrayIconState::Recording),
        Effect::ShowOverlay(Overlay::Recording),
    ]);
}

}
