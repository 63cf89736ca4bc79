//! Side mouse buttons as push-to-talk and hands-free triggers.
//!
//! A global listener hands every mouse event to [`handle_event`], which
//! decides, from the bindings and the push-to-talk hold state, whether the
//! event reaches the operating system and which recording action it
//! triggers. Binding a button works by "capture": after [`MouseConfig::start_capture`]
//! the next side-button press becomes the new binding.
use vstd::prelude::*;
use vstd::string::*;

use crate::text::same_text;

verus! {

/// A mouse button as the global listener reports it. Only the `Unknown`
/// (side) buttons, identified by their code, can be bound.
#[derive(PartialEq, Eq, Structural, Clone, Copy, Debug)]
pub enum MouseButton {
    Left,
    Right,
    Middle,
    Unknown(u8),
}

/// The part of a global input event that the listener looks at.
#[derive(PartialEq, Eq, Structural, Clone, Copy, Debug)]
pub enum MouseEventKind {
    ButtonPress(MouseButton),
    ButtonRelease(MouseButton),
    /// Any other input event (keys, motion, wheel).
    Other,
}

/// Minimum hold duration (ms) before a push-to-talk release counts: shorter
/// press/release pairs are phantom clicks that some mice and drivers emit.
pub const PTT_DEBOUNCE_MS: u64 = 80;

/// The two recording actions a side button can be bound to.
#[derive(PartialEq, Eq, Structural, Clone, Copy, Debug)]
pub enum MouseBinding {
    /// Hold to record, release to transcribe.
    PushToTalk,
    /// Press to start or stop recording.
    HandsFree,
}

/// The binding that an action name from the settings window designates.
pub open spec fn binding_named(action: Seq<char>) -> Option<MouseBinding> {
    if action == "push-to-talk"@ {
        Some(MouseBinding::PushToTalk)
    } else if action == "hands-free"@ {
        Some(MouseBinding::HandsFree)
    } else {
        None
    }
}

/// The binding named by `action` (`"push-to-talk"` or `"hands-free"`), if any.
pub fn binding_for(action: &str) -> (r: Option<MouseBinding>)
    ensures
        r == binding_named(action@),
{
    if same_text(action, "push-to-talk") {
        Some(MouseBinding::PushToTalk)
    } else if same_text(action, "hands-free") {
        Some(MouseBinding::HandsFree)
    } else {
        None
    }
}

/// Mouse bindings and the push-to-talk hold state.
#[derive(Debug)]
pub struct MouseConfig {
    pub push_to_talk_btn: Option<u32>,
    pub hands_free_btn: Option<u32>,
    /// When `Some("push-to-talk")` or `Some("hands-free")`, the next
    /// side-button press is captured as the new binding for that action.
    pub capturing: Option<String>,
    /// True while the push-to-talk button is physically held down.
    ptt_held: bool,
    /// Timestamp (ms since the epoch) of the push-to-talk press, used to
    /// debounce rapid press/release pairs.
    ptt_pressed_at: Option<u64>,
}

/// The contents of a [`MouseConfig`], with the captured action as text.
pub struct MouseConfigView {
    pub push_to_talk_btn: Option<u32>,
    pub hands_free_btn: Option<u32>,
    pub capturing: Option<Seq<char>>,
    pub ptt_held: bool,
    pub ptt_pressed_at: Option<u64>,
}

impl View for MouseConfig {
    type V = MouseConfigView;

    closed spec fn view(&self) -> MouseConfigView {
        MouseConfigView {
            push_to_talk_btn: self.push_to_talk_btn,
            hands_free_btn: self.hands_free_btn,
            capturing: match self.capturing {
                Some(a) => Some(a@),
                None => None,
            },
            ptt_held: self.ptt_held,
            ptt_pressed_at: self.ptt_pressed_at,
        }
    }
}

/// What an event triggers, apart from being passed on or suppressed.
#[derive(Debug)]
pub enum MouseReaction {
    Nothing,
    /// The push-to-talk button went down: start recording.
    PushToTalkPressed,
    /// The push-to-talk button was released after a real hold: stop and transcribe.
    PushToTalkReleased,
    /// The hands-free button was pressed: toggle recording.
    HandsFreePressed,
    /// A side button was captured as the binding for the named action.
    Captured(String, u32),
}

/// A [`MouseReaction`] with the captured action as text.
pub enum Reaction {
    Nothing,
    PushToTalkPressed,
    PushToTalkReleased,
    HandsFreePressed,
    Captured(Seq<char>, u32),
}

impl View for MouseReaction {
    type V = Reaction;

    open spec fn view(&self) -> Reaction {
        match self {
            MouseReaction::Nothing => Reaction::Nothing,
            MouseReaction::PushToTalkPressed => Reaction::PushToTalkPressed,
            MouseReaction::PushToTalkReleased => Reaction::PushToTalkReleased,
            MouseReaction::HandsFreePressed => Reaction::HandsFreePressed,
            MouseReaction::Captured(a, c) => Reaction::Captured(a@, *c),
        }
    }
}

/// The decision about one event: whether the operating system still sees
/// it, and what it triggers.
#[derive(Debug)]
pub struct MouseOutcome {
    pub pass_through: bool,
    pub reaction: MouseReaction,
}

/// One step of the mouse state machine, in spec form.
pub struct MouseStep {
    pub config: MouseConfigView,
    pub pass_through: bool,
    pub reaction: Reaction,
}

/// The storage code of a button: only side buttons have one.
pub open spec fn side_code(b: MouseButton) -> Option<u32> {
    match b {
        MouseButton::Unknown(n) => Some(n as u32),
        _ => None,
    }
}

/// How long the push-to-talk button has been held at `now`; 0 when the
/// clock went backwards or no press time is known.
pub open spec fn held_for(pressed_at: Option<u64>, now: u64) -> u64 {
    match pressed_at {
        Some(t) => if now >= t {
            (now - t) as u64
        } else {
            0
        },
        None => 0,
    }
}

/// The state machine's response to `ev` arriving at time `now` (ms).
///
/// - Left, right and middle buttons and non-button events pass through.
/// - While capturing, a side-button press becomes the binding for the
///   captured action, ends the capture, and is suppressed.
/// - The push-to-talk button's press starts a hold (once), its release ends
///   the hold when it lasted at least [`PTT_DEBOUNCE_MS`]; a shorter release
///   is a phantom and restarts the hold's clock. Both are suppressed.
/// - The hands-free button's press toggles; its press and release are
///   suppressed.
/// - Other side buttons pass through.
pub open spec fn mouse_step(cfg: MouseConfigView, ev: MouseEventKind, now: u64) -> MouseStep {
    let unchanged = MouseStep { config: cfg, pass_through: true, reaction: Reaction::Nothing };
    let swallowed = MouseStep { config: cfg, pass_through: false, reaction: Reaction::Nothing };
    match ev {
        MouseEventKind::ButtonPress(b) => match side_code(b) {
            None => unchanged,
            Some(code) => if cfg.capturing is Some {
                let action = cfg.capturing->0;
                MouseStep {
                    config: MouseConfigView {
                        capturing: None,
                        push_to_talk_btn: if binding_named(action) == Some(
                            MouseBinding::PushToTalk,
                        ) {
                            Some(code)
                        } else {
                            cfg.push_to_talk_btn
                        },
                        hands_free_btn: if binding_named(action) == Some(MouseBinding::HandsFree) {
                            Some(code)
                        } else {
                            cfg.hands_free_btn
                        },
                        ..cfg
                    },
                    pass_through: false,
                    reaction: Reaction::Captured(action, code),
                }
            } else if cfg.push_to_talk_btn == Some(code) {
                if !cfg.ptt_held {
                    MouseStep {
                        config: MouseConfigView {
                            ptt_held: true,
                            ptt_pressed_at: Some(now),
                            ..cfg
                        },
                        pass_through: false,
                        reaction: Reaction::PushToTalkPressed,
                    }
                } else {
                    swallowed
                }
            } else if cfg.hands_free_btn == Some(code) {
                MouseStep { config: cfg, pass_through: false, reaction: Reaction::HandsFreePressed }
            } else {
                unchanged
            },
        },
        MouseEventKind::ButtonRelease(b) => match side_code(b) {
            None => unchanged,
            Some(code) => if cfg.push_to_talk_btn == Some(code) {
                if cfg.ptt_held {
                    if held_for(cfg.ptt_pressed_at, now) >= PTT_DEBOUNCE_MS {
                        MouseStep {
                            config: MouseConfigView {
                                ptt_held: false,
                                ptt_pressed_at: None,
                                ..cfg
                            },
                            pass_through: false,
                            reaction: Reaction::PushToTalkReleased,
                        }
                    } else {
                        MouseStep {
                            config: MouseConfigView { ptt_pressed_at: Some(now), ..cfg },
                            pass_through: false,
                            reaction: Reaction::Nothing,
                        }
                    }
                } else {
                    swallowed
                }
            } else if cfg.hands_free_btn == Some(code) {
                swallowed
            } else {
                unchanged
            },
        },
        MouseEventKind::Other => unchanged,
    }
}

/// The hold state is consistent: a press time is recorded exactly while the
/// push-to-talk button is held.
pub open spec fn hold_consistent(cfg: MouseConfigView) -> bool {
    cfg.ptt_held <==> cfg.ptt_pressed_at is Some
}

impl MouseConfig {
    /// Bindings from the settings; no capture pending, push-to-talk not held.
    pub fn new(ptt: Option<u32>, hf: Option<u32>) -> (r: Self)
        ensures
            hold_consistent(r@),
            r@ == (MouseConfigView {
                push_to_talk_btn: ptt,
                hands_free_btn: hf,
                capturing: None,
                ptt_held: false,
                ptt_pressed_at: None,
            }),
    {
        MouseConfig {
            push_to_talk_btn: ptt,
            hands_free_btn: hf,
            capturing: None,
            ptt_held: false,
            ptt_pressed_at: None,
        }
    }

    /// Arms capture mode: the next side-button press is bound to `action`.
    pub fn start_capture(&mut self, action: String)
        ensures
            final(self)@ == (MouseConfigView { capturing: Some(action@), ..old(self)@ }),
    {
        self.capturing = Some(action);
    }

    /// Removes the binding that `action` names; other names change nothing.
    pub fn clear_shortcut(&mut self, action: &str)
        ensures
            final(self)@ == (MouseConfigView {
                push_to_talk_btn: if binding_named(action@) == Some(MouseBinding::PushToTalk) {
                    None
                } else {
                    old(self)@.push_to_talk_btn
                },
                hands_free_btn: if binding_named(action@) == Some(MouseBinding::HandsFree) {
                    None
                } else {
                    old(self)@.hands_free_btn
                },
                ..old(self)@
            }),
    {
        match binding_for(action) {
            Some(MouseBinding::PushToTalk) => {
                self.push_to_talk_btn = None;
            },
            Some(MouseBinding::HandsFree) => {
                self.hands_free_btn = None;
            },
            None => {},
        }
    }

    /// Whether the push-to-talk button is currently held.
    pub fn is_push_to_talk_held(&self) -> (r: bool)
        ensures
            r == self@.ptt_held,
    {
        self.ptt_held
    }
}

/// Map a button to its storage code. Only side (`Unknown`) buttons are
/// bindable; left, right and middle give `None`.
pub fn btn_code(btn: &MouseButton) -> (r: Option<u32>)
    ensures
        r == side_code(*btn),
{
    match btn {
        MouseButton::Unknown(n) => Some(*n as u32),
        _ => None,
    }
}

fn same_code(bound: Option<u32>, code: u32) -> (r: bool)
    ensures
        r == (bound == Some(code)),
{
    match bound {
        Some(b) => b == code,
        None => false,
    }
}

/// The state machine step of [`mouse_step`] for an event at time `now`.
pub fn handle_event_at(cfg: &mut MouseConfig, event: &MouseEventKind, now: u64) -> (out:
    MouseOutcome)
    ensures
        mouse_step(old(cfg)@, *event, now) == (MouseStep {
            config: final(cfg)@,
            pass_through: out.pass_through,
            reaction: out.reaction@,
        }),
{
    let pass = MouseOutcome { pass_through: true, reaction: MouseReaction::Nothing };
    let swallow = MouseOutcome { pass_through: false, reaction: MouseReaction::Nothing };
    match event {
        MouseEventKind::ButtonPress(btn) => {
            let code = match btn_code(btn) {
                Some(c) => c,
                None => return pass,
            };
            // Capture mode: bind the button and suppress the click.
            if let Some(action) = cfg.capturing.take() {
                match binding_for(action.as_str()) {
                    Some(MouseBinding::PushToTalk) => {
                        cfg.push_to_talk_btn = Some(code);
                    },
                    Some(MouseBinding::HandsFree) => {
                        cfg.hands_free_btn = Some(code);
                    },
                    None => {},
                }
                return MouseOutcome {
                    pass_through: false,
                    reaction: MouseReaction::Captured(action, code),
                };
            }
            if same_code(cfg.push_to_talk_btn, code) {
                if !cfg.ptt_held {
                    cfg.ptt_held = true;
                    cfg.ptt_pressed_at = Some(now);
                    MouseOutcome { pass_through: false, reaction: MouseReaction::PushToTalkPressed }
                } else {
                    swallow
                }
            } else if same_code(cfg.hands_free_btn, code) {
                MouseOutcome { pass_through: false, reaction: MouseReaction::HandsFreePressed }
            } else {
                pass
            }
        },
        MouseEventKind::ButtonRelease(btn) => {
            let code = match btn_code(btn) {
                Some(c) => c,
                None => return pass,
            };
            if same_code(cfg.push_to_talk_btn, code) {
                if cfg.ptt_held {
                    let held_ms: u64 = match cfg.ptt_pressed_at {
                        Some(t) => now.saturating_sub(t),
                        None => 0,
                    };
                    if held_ms >= PTT_DEBOUNCE_MS {
                        // A real release: stop recording.
                        cfg.ptt_held = false;
                        cfg.ptt_pressed_at = None;
                        MouseOutcome {
                            pass_through: false,
                            reaction: MouseReaction::PushToTalkReleased,
                        }
                    } else {
                        // A phantom release: keep holding, measure the next
                        // release from now.
                        cfg.ptt_pressed_at = Some(now);
                        swallow
                    }
                } else {
                    swallow
                }
            } else if same_code(cfg.hands_free_btn, code) {
                swallow
            } else {
                pass
            }
        },
        MouseEventKind::Other => pass,
    }
}

#[verifier::external_type_specification]
#[verifier::external_body]
pub struct ExSystemTime(std::time::SystemTime);

#[verifier::external_type_specification]
#[verifier::external_body]
pub struct ExSystemTimeError(std::time::SystemTimeError);

/// Calls `std::time::SystemTime::now`. The reading depends on the clock, so
/// nothing is stated of it.
#[verifier::external_body]
fn clock_reading() -> std::time::SystemTime {
    std::time::SystemTime::now()
}

/// Calls `SystemTime::duration_since` with the Unix epoch. The outcome
/// depends on the opaque clock reading, so nothing is stated of it.
#[verifier::external_body]
fn since_unix_epoch(t: &std::time::SystemTime) -> Result<
    std::time::Duration,
    std::time::SystemTimeError,
> {
    t.duration_since(std::time::UNIX_EPOCH)
}

/// Calls `Duration::as_millis`. The duration is opaque here, so nothing is
/// stated of the count.
#[verifier::external_body]
fn whole_millis(d: &std::time::Duration) -> u128 {
    d.as_millis()
}

/// A millisecond count as a `u64`: a count since the epoch, truncated to its
/// low 64 bits, or 0 when the clock read before the epoch (the default
/// duration's count).
pub open spec fn millis_value(m: Option<u128>) -> u64 {
    match m {
        Some(x) => x as u64,
        None => 0,
    }
}

/// Turns the whole milliseconds since the epoch (`None` when the clock read
/// before the epoch) into the `u64` timestamp the debounce works with.
pub fn millis_u64(m: Option<u128>) -> (r: u64)
    ensures
        r == millis_value(m),
{
    match m {
        Some(x) => {
            #[verifier::truncate]
            (x as u64)
        },
        None => 0,
    }
}

/// Milliseconds since the Unix epoch by the system clock, truncated to 64
/// bits; 0 when the clock reads before the epoch (the default duration).
pub fn now_ms() -> u64 {
    let reading = clock_reading();
    let since_epoch: Option<u128> = match since_unix_epoch(&reading) {
        Ok(d) => Some(whole_millis(&d)),
        Err(_) => None,
    };
    millis_u64(since_epoch)
}

/// Decides what an event does, reading the clock for the debounce. The
/// result is the state machine step for the event at some instant.
pub fn handle_event(cfg: &mut MouseConfig, event: &MouseEventKind) -> (out: MouseOutcome)
    ensures
        exists|now: u64|
            #[trigger] mouse_step(old(cfg)@, *event, now) == (MouseStep {
                config: final(cfg)@,
                pass_through: out.pass_through,
                reaction: out.reaction@,
            }),
{
    let now = now_ms();
    handle_event_at(cfg, event, now)
}

/// Left, right and middle buttons, and events that are not button events,
/// always reach the operating system and change nothing.
pub proof fn lemma_primary_buttons_pass_through(cfg: MouseConfigView, b: MouseButton, now: u64)
    requires
        !(b is Unknown),
    ensures
        mouse_step(cfg, MouseEventKind::ButtonPress(b), now) == (MouseStep {
            config: cfg,
            pass_through: true,
            reaction: Reaction::Nothing,
        }),
        mouse_step(cfg, MouseEventKind::ButtonRelease(b), now) == (MouseStep {
            config: cfg,
            pass_through: true,
            reaction: Reaction::Nothing,
        }),
        mouse_step(cfg, MouseEventKind::Other, now) == (MouseStep {
            config: cfg,
            pass_through: true,
            reaction: Reaction::Nothing,
        }),
{
}

/// While a capture is pending, the next side-button press becomes the
/// binding of the captured action (when it names one), ends the capture,
/// reports the capture, and is suppressed; the hold state is untouched.
pub proof fn lemma_capture_binds_next_press(cfg: MouseConfigView, n: u8, now: u64)
    requires
        cfg.capturing is Some,
    ensures
        ({
            let action = cfg.capturing->0;
            let step = mouse_step(cfg, MouseEventKind::ButtonPress(MouseButton::Unknown(n)), now);
            &&& step.config.capturing is None
            &&& !step.pass_through
            &&& step.reaction == Reaction::Captured(action, n as u32)
            &&& step.config.push_to_talk_btn == if binding_named(action) == Some(
                MouseBinding::PushToTalk,
            ) {
                Some(n as u32)
            } else {
                cfg.push_to_talk_btn
            }
            &&& step.config.hands_free_btn == if binding_named(action) == Some(
                MouseBinding::HandsFree,
            ) {
                Some(n as u32)
            } else {
                cfg.hands_free_btn
            }
            &&& step.config.ptt_held == cfg.ptt_held
            &&& step.config.ptt_pressed_at == cfg.ptt_pressed_at
        }),
{
}

/// Presses and releases of a bound side button never reach the operating
/// system (so they cannot trigger browser back/forward).
pub proof fn lemma_bound_buttons_suppressed(cfg: MouseConfigView, n: u8, now: u64)
    requires
        cfg.push_to_talk_btn == Some(n as u32) || cfg.hands_free_btn == Some(n as u32),
    ensures
        !mouse_step(cfg, MouseEventKind::ButtonPress(MouseButton::Unknown(n)), now).pass_through,
        !mouse_step(cfg, MouseEventKind::ButtonRelease(MouseButton::Unknown(n)), now).pass_through,
{
}

/// Outside capture mode, an unbound side button passes through unchanged and
/// triggers nothing.
pub proof fn lemma_unbound_side_buttons_pass_through(cfg: MouseConfigView, n: u8, now: u64)
    requires
        cfg.capturing is None,
        cfg.push_to_talk_btn != Some(n as u32),
        cfg.hands_free_btn != Some(n as u32),
    ensures
        mouse_step(cfg, MouseEventKind::ButtonPress(MouseButton::Unknown(n)), now) == (MouseStep {
            config: cfg,
            pass_through: true,
            reaction: Reaction::Nothing,
        }),
        mouse_step(cfg, MouseEventKind::ButtonRelease(MouseButton::Unknown(n)), now) == (
        MouseStep { config: cfg, pass_through: true, reaction: Reaction::Nothing }),
{
}

/// A push-to-talk press followed by a release at least [`PTT_DEBOUNCE_MS`]
/// later starts and then stops recording, and leaves the configuration as it
/// was before the press.
pub proof fn lemma_hold_then_release(cfg: MouseConfigView, n: u8, pressed: u64, released: u64)
    requires
        hold_consistent(cfg),
        cfg.capturing is None,
        cfg.push_to_talk_btn == Some(n as u32),
        !cfg.ptt_held,
        released >= pressed + PTT_DEBOUNCE_MS,
    ensures
        ({
            let first = mouse_step(
                cfg,
                MouseEventKind::ButtonPress(MouseButton::Unknown(n)),
                pressed,
            );
            let second = mouse_step(
                first.config,
                MouseEventKind::ButtonRelease(MouseButton::Unknown(n)),
                released,
            );
            &&& first.reaction == Reaction::PushToTalkPressed
            &&& first.config.ptt_held
            &&& second.reaction == Reaction::PushToTalkReleased
            &&& second.config == cfg
            &&& !first.pass_through && !second.pass_through
        }),
{
}

/// A push-to-talk release sooner than [`PTT_DEBOUNCE_MS`] after the recorded
/// press is a phantom: recording goes on, and the next release is measured
/// from this one.
pub proof fn lemma_phantom_release_ignored(cfg: MouseConfigView, n: u8, now: u64)
    requires
        cfg.push_to_talk_btn == Some(n as u32),
        cfg.ptt_held,
        held_for(cfg.ptt_pressed_at, now) < PTT_DEBOUNCE_MS,
    ensures
        mouse_step(cfg, MouseEventKind::ButtonRelease(MouseButton::Unknown(n)), now) == (
        MouseStep {
            config: MouseConfigView { ptt_pressed_at: Some(now), ..cfg },
            pass_through: false,
            reaction: Reaction::Nothing,
        }),
{
}

/// While the push-to-talk button is held, a further press of it starts
/// nothing and changes nothing.
pub proof fn lemma_repeated_press_ignored(cfg: MouseConfigView, n: u8, now: u64)
    requires
        cfg.capturing is None,
        cfg.push_to_talk_btn == Some(n as u32),
        cfg.ptt_held,
    ensures
        mouse_step(cfg, MouseEventKind::ButtonPress(MouseButton::Unknown(n)), now) == (MouseStep {
            config: cfg,
            pass_through: false,
            reaction: Reaction::Nothing,
        }),
{
}

/// Push-to-talk is released only while it is held, and a release leaves it
/// not held: every release reaction follows a press.
pub proof fn lemma_release_only_when_held(cfg: MouseConfigView, ev: MouseEventKind, now: u64)
    requires
        mouse_step(cfg, ev, now).reaction == Reaction::PushToTalkReleased,
    ensures
        cfg.ptt_held,
        !mouse_step(cfg, ev, now).config.ptt_held,
{
}

/// A press reaction happens only when push-to-talk was not held, and leaves
/// it held: one hold starts recording once.
pub proof fn lemma_press_only_when_released(cfg: MouseConfigView, ev: MouseEventKind, now: u64)
    requires
        mouse_step(cfg, ev, now).reaction == Reaction::PushToTalkPressed,
    ensures
        !cfg.ptt_held,
        mouse_step(cfg, ev, now).config.ptt_held,
{
}

/// Every step keeps the hold state consistent, so every configuration
/// reached from [`MouseConfig::new`] records a press time exactly while the
/// button is held.
pub proof fn lemma_step_keeps_hold_consistent(cfg: MouseConfigView, ev: MouseEventKind, now: u64)
    requires
        hold_consistent(cfg),
    ensures
        hold_consistent(mouse_step(cfg, ev, now).config),
{
}


/// +1 for a push-to-talk press reaction, -1 for a release, 0 for any other.
pub open spec fn ptt_delta(r: Reaction) -> int {
    match r {
        Reaction::PushToTalkPressed => 1,
        Reaction::PushToTalkReleased => -1,
        _ => 0,
    }
}

/// Push-to-talk presses minus releases among `rs`.
pub open spec fn ptt_balance(rs: Seq<Reaction>) -> int
    decreases rs.len(),
{
    if rs.len() == 0 {
        0
    } else {
        ptt_balance(rs.drop_last()) + ptt_delta(rs.last())
    }
}

/// A run of the listener over `events` at `times`: `configs[i]` is the
/// configuration that the i-th event meets. Between events the public fields
/// (bindings, capture) may have been rewritten; the hold state is the one the
/// previous step left.
pub open spec fn listener_run(
    configs: Seq<MouseConfigView>,
    events: Seq<MouseEventKind>,
    times: Seq<u64>,
) -> bool {
    &&& configs.len() == events.len() + 1
    &&& times.len() == events.len()
    &&& forall|i: int|
        0 <= i < events.len() ==> {
            let after = #[trigger] mouse_step(configs[i], events[i], times[i]).config;
            &&& configs[i + 1].ptt_held == after.ptt_held
            &&& configs[i + 1].ptt_pressed_at == after.ptt_pressed_at
        }
}

/// The reactions of a run, one per event.
pub open spec fn run_reactions(
    configs: Seq<MouseConfigView>,
    events: Seq<MouseEventKind>,
    times: Seq<u64>,
) -> Seq<Reaction> {
    Seq::new(events.len(), |i: int| mouse_step(configs[i], events[i], times[i]).reaction)
}

proof fn lemma_balance_tracks_hold(
    configs: Seq<MouseConfigView>,
    events: Seq<MouseEventKind>,
    times: Seq<u64>,
    k: int,
)
    requires
        listener_run(configs, events, times),
        !configs[0].ptt_held,
        0 <= k <= events.len(),
    ensures
        ptt_balance(run_reactions(configs, events, times).take(k)) == if configs[k].ptt_held {
            1int
        } else {
            0int
        },
    decreases k,
{
    let rs = run_reactions(configs, events, times);
    if k == 0 {
        assert(rs.take(0).len() == 0);
    } else {
        lemma_balance_tracks_hold(configs, events, times, k - 1);
        assert(rs.take(k).drop_last() =~= rs.take(k - 1));
        let step = mouse_step(configs[k - 1], events[k - 1], times[k - 1]);
        assert(rs.take(k).last() == step.reaction);
        assert(configs[k].ptt_held == step.config.ptt_held);
    }
}

/// Over any run that starts with push-to-talk not held (as
/// [`MouseConfig::new`] leaves it), push-to-talk presses and releases
/// strictly alternate, beginning with a press: before every press as many
/// releases as presses have happened, before every release one press more,
/// and at every point presses exceed releases by 0 or 1, by 1 exactly while
/// the button is held. Each event triggers at most one reaction.
pub proof fn lemma_push_to_talk_alternates(
    configs: Seq<MouseConfigView>,
    events: Seq<MouseEventKind>,
    times: Seq<u64>,
)
    requires
        listener_run(configs, events, times),
        !configs[0].ptt_held,
    ensures
        forall|k: int|
            0 <= k <= events.len() ==> {
                let b = #[trigger] ptt_balance(run_reactions(configs, events, times).take(k));
                &&& 0 <= b <= 1
                &&& b == if configs[k].ptt_held {
                    1int
                } else {
                    0int
                }
            },
        forall|i: int|
            0 <= i < events.len() && #[trigger] run_reactions(configs, events, times)[i]
                == Reaction::PushToTalkPressed ==> ptt_balance(
                run_reactions(configs, events, times).take(i),
            ) == 0,
        forall|i: int|
            0 <= i < events.len() && #[trigger] run_reactions(configs, events, times)[i]
                == Reaction::PushToTalkReleased ==> ptt_balance(
                run_reactions(configs, events, times).take(i),
            ) == 1,
{
    let rs = run_reactions(configs, events, times);
    assert forall|k: int| 0 <= k <= events.len() implies {
        let b = #[trigger] ptt_balance(rs.take(k));
        &&& 0 <= b <= 1
        &&& b == if configs[k].ptt_held {
            1int
        } else {
            0int
        }
    } by {
        lemma_balance_tracks_hold(configs, events, times, k);
    }
    assert forall|i: int|
        0 <= i < events.len() && #[trigger] rs[i] == Reaction::PushToTalkPressed implies ptt_balance(
        rs.take(i)) == 0 by {
        lemma_balance_tracks_hold(configs, events, times, i);
        let step = mouse_step(configs[i], events[i], times[i]);
        assert(step.reaction == rs[i]);
        lemma_press_only_when_released(configs[i], events[i], times[i]);
    }
    assert forall|i: int|
        0 <= i < events.len() && #[trigger] rs[i] == Reaction::PushToTalkReleased implies ptt_balance(
        rs.take(i)) == 1 by {
        lemma_balance_tracks_hold(configs, events, times, i);
        let step = mouse_step(configs[i], events[i], times[i]);
        assert(step.reaction == rs[i]);
        lemma_release_only_when_held(configs[i], events[i], times[i]);
    }
}


/// Outside capture mode, pressing the hands-free button (when it is not also
/// the push-to-talk button) toggles recording and is suppressed, whatever the
/// push-to-talk binding; it changes no state.
pub proof fn lemma_hands_free_press_toggles(cfg: MouseConfigView, n: u8, now: u64)
    requires
        cfg.capturing is None,
        cfg.hands_free_btn == Some(n as u32),
        cfg.push_to_talk_btn != Some(n as u32),
    ensures
        mouse_step(cfg, MouseEventKind::ButtonPress(MouseButton::Unknown(n)), now) == (MouseStep {
            config: cfg,
            pass_through: false,
            reaction: Reaction::HandsFreePressed,
        }),
{
}

/// Releasing the hands-free button (when it is not also the push-to-talk
/// button) is suppressed and does nothing: one click toggles once.
pub proof fn lemma_hands_free_release_inert(cfg: MouseConfigView, n: u8, now: u64)
    requires
        cfg.hands_free_btn == Some(n as u32),
        cfg.push_to_talk_btn != Some(n as u32),
    ensures
        mouse_step(cfg, MouseEventKind::ButtonRelease(MouseButton::Unknown(n)), now) == (
        MouseStep { config: cfg, pass_through: false, reaction: Reaction::Nothing }),
{
}

/// A release can only end a push-to-talk hold: it never toggles, starts or
/// captures, and never changes the bindings or the capture.
pub proof fn lemma_release_reactions(cfg: MouseConfigView, b: MouseButton, now: u64)
    ensures
        ({
            let step = mouse_step(cfg, MouseEventKind::ButtonRelease(b), now);
            &&& step.reaction is Nothing || step.reaction is PushToTalkReleased
            &&& step.config.push_to_talk_btn == cfg.push_to_talk_btn
            &&& step.config.hands_free_btn == cfg.hands_free_btn
            &&& step.config.capturing == cfg.capturing
        }),
{
}

/// A press never ends a push-to-talk hold.
pub proof fn lemma_press_never_releases(cfg: MouseConfigView, b: MouseButton, now: u64)
    ensures
        !(mouse_step(cfg, MouseEventKind::ButtonPress(b), now).reaction is PushToTalkReleased),
        cfg.ptt_held ==> mouse_step(cfg, MouseEventKind::ButtonPress(b), now).config.ptt_held,
{
}


/// The action names that bindings answer to: `"push-to-talk"` and
/// `"hands-free"`, and no other text.
pub proof fn lemma_binding_names(action: Seq<char>)
    ensures
        binding_named("push-to-talk"@) == Some(MouseBinding::PushToTalk),
        binding_named("hands-free"@) == Some(MouseBinding::HandsFree),
        action != "push-to-talk"@ && action != "hands-free"@ ==> binding_named(action) is None,
        binding_named(action) == Some(MouseBinding::PushToTalk) ==> action == "push-to-talk"@,
        binding_named(action) == Some(MouseBinding::HandsFree) ==> action == "hands-free"@,
{
    reveal_strlit("push-to-talk");
    reveal_strlit("hands-free");
    assert("push-to-talk"@ != "hands-free"@) by {
        assert("push-to-talk"@[0] != "hands-free"@[0]);
    }
}

} // verus!
