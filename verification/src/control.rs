//! How the triggers (the global hotkey, the tray icon, the mouse buttons)
//! turn into recorder commands.
use vstd::prelude::*;
use vstd::string::*;

use crate::mouse_listener::MouseReaction;
use crate::recorder::{after_microphone, after_stop_request, RecordingState};
use crate::text::same_text;

verus! {

/// What a toggle request does in the current phase.
#[derive(Debug)]
pub enum TogglePlan {
    /// Start recording; on success the request answers `reply`.
    StartRecording { reply: String },
    /// Stop recording and transcribe; the request answers the transcript.
    StopAndTranscribe,
    /// Refuse while transcribing: show `notice` to the user, answer `error`.
    Refuse { notice: String, error: String },
}

/// A [`TogglePlan`] with its texts as characters.
pub enum ToggleDecision {
    StartRecording(Seq<char>),
    StopAndTranscribe,
    Refuse(Seq<char>, Seq<char>),
}

impl View for TogglePlan {
    type V = ToggleDecision;

    open spec fn view(&self) -> ToggleDecision {
        match self {
            TogglePlan::StartRecording { reply } => ToggleDecision::StartRecording(reply@),
            TogglePlan::StopAndTranscribe => ToggleDecision::StopAndTranscribe,
            TogglePlan::Refuse { notice, error } => ToggleDecision::Refuse(notice@, error@),
        }
    }
}

/// Toggling starts a ready recorder, stops a recording one, and is refused
/// while transcribing.
pub open spec fn toggle_decision(s: RecordingState) -> ToggleDecision {
    match s {
        RecordingState::Ready => ToggleDecision::StartRecording("recording"@),
        RecordingState::Recording => ToggleDecision::StopAndTranscribe,
        RecordingState::Transcribing => ToggleDecision::Refuse(
            "Still transcribing — please wait"@,
            "Currently transcribing, please wait"@,
        ),
    }
}

/// What a toggle request (hotkey in toggle mode, tray click, hands-free
/// button) does in phase `s`.
pub fn toggle_plan(s: RecordingState) -> (r: TogglePlan)
    ensures
        r@ == toggle_decision(s),
{
    match s {
        RecordingState::Ready => TogglePlan::StartRecording { reply: String::from_str("recording") },
        RecordingState::Recording => TogglePlan::StopAndTranscribe,
        RecordingState::Transcribing => TogglePlan::Refuse {
            notice: String::from_str("Still transcribing — please wait"),
            error: String::from_str("Currently transcribing, please wait"),
        },
    }
}

/// What a trigger asks of the recorder.
#[derive(PartialEq, Eq, Structural, Clone, Copy, Debug)]
pub enum Intent {
    /// Start when ready, stop when recording, refuse while transcribing.
    Toggle,
    /// Start, if the recorder is ready.
    StartIfReady,
    /// Stop and transcribe, if the recorder is recording.
    StopIfRecording,
    /// Nothing.
    Ignore,
}

/// The intent of a hotkey press (`pressed`) or release in a recording mode:
/// in `"toggle"` mode a press toggles; in `"push-to-talk"` mode a press
/// starts and a release stops; anything else does nothing.
pub open spec fn hotkey_intent_spec(mode: Seq<char>, pressed: bool) -> Intent {
    if pressed {
        if mode == "toggle"@ {
            Intent::Toggle
        } else if mode == "push-to-talk"@ {
            Intent::StartIfReady
        } else {
            Intent::Ignore
        }
    } else if mode == "push-to-talk"@ {
        Intent::StopIfRecording
    } else {
        Intent::Ignore
    }
}

/// The intent of a global hotkey event under the recording mode `mode`.
pub fn hotkey_intent(mode: &str, pressed: bool) -> (r: Intent)
    ensures
        r == hotkey_intent_spec(mode@, pressed),
{
    if pressed {
        if same_text(mode, "toggle") {
            Intent::Toggle
        } else if same_text(mode, "push-to-talk") {
            Intent::StartIfReady
        } else {
            Intent::Ignore
        }
    } else if same_text(mode, "push-to-talk") {
        Intent::StopIfRecording
    } else {
        Intent::Ignore
    }
}

/// The intent of a mouse-button reaction: the push-to-talk press starts, its
/// release stops, the hands-free press toggles; a capture does not touch the
/// recorder.
pub fn mouse_intent(reaction: &MouseReaction) -> (r: Intent)
    ensures
        r == match reaction {
            MouseReaction::PushToTalkPressed => Intent::StartIfReady,
            MouseReaction::PushToTalkReleased => Intent::StopIfRecording,
            MouseReaction::HandsFreePressed => Intent::Toggle,
            _ => Intent::Ignore,
        },
{
    match reaction {
        MouseReaction::PushToTalkPressed => Intent::StartIfReady,
        MouseReaction::PushToTalkReleased => Intent::StopIfRecording,
        MouseReaction::HandsFreePressed => Intent::Toggle,
        _ => Intent::Ignore,
    }
}

/// Whether a conditional intent goes ahead in phase `s`: a conditional start
/// only when ready, a conditional stop only when recording. A toggle always
/// goes ahead (its plan decides); `Ignore` never does.
pub fn intent_applies(intent: Intent, s: RecordingState) -> (r: bool)
    ensures
        r == match intent {
            Intent::Toggle => true,
            Intent::StartIfReady => s == RecordingState::Ready,
            Intent::StopIfRecording => s == RecordingState::Recording,
            Intent::Ignore => false,
        },
{
    match intent {
        Intent::Toggle => true,
        Intent::StartIfReady => s == RecordingState::Ready,
        Intent::StopIfRecording => s == RecordingState::Recording,
        Intent::Ignore => false,
    }
}

/// In push-to-talk mode, pressing the hotkey starts only a ready recorder
/// and releasing it stops only a recording one; in toggle mode a release
/// does nothing.
pub proof fn lemma_push_to_talk_hotkey()
    ensures
        hotkey_intent_spec("push-to-talk"@, true) == Intent::StartIfReady,
        hotkey_intent_spec("push-to-talk"@, false) == Intent::StopIfRecording,
        hotkey_intent_spec("toggle"@, false) == Intent::Ignore,
        hotkey_intent_spec("toggle"@, true) == Intent::Toggle,
{
    reveal_strlit("push-to-talk");
    reveal_strlit("toggle");
    assert("push-to-talk"@ != "toggle"@) by {
        assert("push-to-talk"@[0] != "toggle"@[0]);
    }
}

/// Toggling walks the recorder's cycle: from ready it starts (and with a
/// working microphone the recorder is then recording), from recording it
/// stops (and the recorder is then transcribing), and while transcribing it
/// is refused.
pub proof fn lemma_toggle_cycle()
    ensures
        toggle_decision(RecordingState::Ready) is StartRecording,
        after_microphone(Ok(())).0 == RecordingState::Recording,
        toggle_decision(RecordingState::Recording) is StopAndTranscribe,
        after_stop_request(RecordingState::Recording).0 == RecordingState::Transcribing,
        toggle_decision(RecordingState::Transcribing) is Refuse,
{
}


/// The three phases and what a toggle does in each, with the texts shown:
/// ready starts (answering "recording"), recording stops and transcribes,
/// transcribing refuses with a notice and an error.
pub proof fn lemma_toggle_texts()
    ensures
        toggle_decision(RecordingState::Ready) == ToggleDecision::StartRecording("recording"@),
        toggle_decision(RecordingState::Recording) == ToggleDecision::StopAndTranscribe,
        toggle_decision(RecordingState::Transcribing) == ToggleDecision::Refuse(
            "Still transcribing — please wait"@,
            "Currently transcribing, please wait"@,
        ),
{
}

/// A recording mode other than `"toggle"` and `"push-to-talk"` makes the
/// hotkey do nothing, pressed or released; in `"toggle"` mode a release does
/// nothing.
pub proof fn lemma_other_modes_ignored(mode: Seq<char>, pressed: bool)
    ensures
        mode != "toggle"@ && mode != "push-to-talk"@ ==> hotkey_intent_spec(mode, pressed)
            == Intent::Ignore,
        mode == "toggle"@ && !pressed ==> hotkey_intent_spec(mode, pressed) == Intent::Ignore,
{
    reveal_strlit("push-to-talk");
    reveal_strlit("toggle");
    assert("push-to-talk"@ != "toggle"@) by {
        assert("push-to-talk"@[0] != "toggle"@[0]);
    }
}

} // verus!
