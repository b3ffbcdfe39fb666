//! The dictation controller: the decisions that tie the hotkey to the pipeline
//! (audio capture → speech-to-text → text injection).
//!
//! The application runs the loop: it performs each [`ControllerAction`] (starting the
//! microphone, spawning the transcription, stopping the capture and awaiting the
//! transcript, typing the text) and feeds the outcome back as a [`ControllerEvent`].
//! [`Dictation::step`] decides the next phase, updates the shared state and names the
//! next action.

use vstd::prelude::*;
use vstd::string::*;

use crate::app::{SharedState, SharedStateView, Status, StatusView};
use crate::config::ConfigView;
use crate::stt::StreamParams;
use crate::text::{first_line, first_line_of, take_chars, trim, trimmed};

verus! {

/// Where the controller is in a dictation.
#[derive(Debug, Clone, Copy, PartialEq, Eq, Structural)]
pub enum Phase {
    /// Waiting for the hotkey.
    Idle,
    /// The microphone was asked to start.
    Starting,
    /// Capturing audio while the hotkey is held.
    Listening,
    /// The hotkey was released; waiting for the final transcript.
    Finishing,
    /// Typing the transcript into the focused application.
    Injecting,
}

/// What happened: a hotkey edge, or the outcome of the previous action.
#[derive(Debug)]
pub enum ControllerEvent {
    /// The push-to-talk combination became held.
    Pressed,
    /// The push-to-talk combination was released.
    Released,
    /// The microphone started at this sample rate.
    CaptureStarted { sample_rate: u32 },
    /// The microphone could not start; the message describes why.
    CaptureFailed { message: String },
    /// The provider returned this transcript.
    Transcribed(String),
    /// The provider failed; the message is the error's text.
    TranscriptionFailed { message: String },
    /// The transcription task panicked.
    TranscriptionPanicked,
    /// The text was typed.
    Injected,
    /// Typing failed; the message is the error's text.
    InjectionFailed { message: String },
}

/// The abstract content of a [`ControllerEvent`].
pub enum EventView {
    Pressed,
    Released,
    CaptureStarted { sample_rate: u32 },
    CaptureFailed { message: Seq<char> },
    Transcribed(Seq<char>),
    TranscriptionFailed { message: Seq<char> },
    TranscriptionPanicked,
    Injected,
    InjectionFailed { message: Seq<char> },
}

impl View for ControllerEvent {
    type V = EventView;

    open spec fn view(&self) -> EventView {
        match self {
            ControllerEvent::Pressed => EventView::Pressed,
            ControllerEvent::Released => EventView::Released,
            ControllerEvent::CaptureStarted { sample_rate } => EventView::CaptureStarted {
                sample_rate: *sample_rate,
            },
            ControllerEvent::CaptureFailed { message } => EventView::CaptureFailed {
                message: message@,
            },
            ControllerEvent::Transcribed(t) => EventView::Transcribed(t@),
            ControllerEvent::TranscriptionFailed { message } => EventView::TranscriptionFailed {
                message: message@,
            },
            ControllerEvent::TranscriptionPanicked => EventView::TranscriptionPanicked,
            ControllerEvent::Injected => EventView::Injected,
            ControllerEvent::InjectionFailed { message } => EventView::InjectionFailed {
                message: message@,
            },
        }
    }
}

/// What the application must do next.
#[derive(Debug)]
pub enum ControllerAction {
    /// Nothing.
    Nothing,
    /// Start capturing from the named microphone (`None`: the system default).
    StartCapture { microphone: Option<String> },
    /// Start the speech provider on the captured audio with these parameters.
    StartTranscription { params: StreamParams },
    /// Stop the capture (which ends the audio input) and await the transcript.
    FinishCapture,
    /// Type this text into the focused application.
    Inject { text: String },
}

/// The abstract content of a [`ControllerAction`].
pub enum ActionView {
    Nothing,
    StartCapture { microphone: Option<Seq<char>> },
    StartTranscription { sample_rate: u32, language: Seq<char> },
    FinishCapture,
    Inject { text: Seq<char> },
}

impl View for ControllerAction {
    type V = ActionView;

    open spec fn view(&self) -> ActionView {
        match self {
            ControllerAction::Nothing => ActionView::Nothing,
            ControllerAction::StartCapture { microphone } => ActionView::StartCapture {
                microphone: match microphone {
                    Some(m) => Some(m@),
                    None => None,
                },
            },
            ControllerAction::StartTranscription { params } => ActionView::StartTranscription {
                sample_rate: params.sample_rate,
                language: params.language@,
            },
            ControllerAction::FinishCapture => ActionView::FinishCapture,
            ControllerAction::Inject { text } => ActionView::Inject { text: text@ },
        }
    }
}

/// `"error"`.
pub open spec fn generic_error() -> Seq<char> {
    seq!['e', 'r', 'r', 'o', 'r']
}

/// The user-facing form of an error message: its first line, at most 80 characters, or
/// `"error"` when the message is empty.
pub open spec fn short_error_text(message: Seq<char>) -> Seq<char> {
    if message.len() == 0 {
        generic_error()
    } else if first_line(message).len() <= 80 {
        first_line(message)
    } else {
        first_line(message).take(80)
    }
}

/// `"Mic error: "` followed by the message.
pub open spec fn mic_error(message: Seq<char>) -> Seq<char> {
    "Mic error: "@ + message
}

/// `"internal error"`.
pub open spec fn internal_error() -> Seq<char> {
    "internal error"@
}

/// The state with a new status.
pub open spec fn with_status(st: SharedStateView, s: StatusView) -> SharedStateView {
    SharedStateView { status: s, ..st }
}

/// The controller's memory between events: the phase, and the language configured when
/// the hotkey was pressed (a dictation is transcribed in that language).
pub struct DictationView {
    pub phase: Phase,
    pub language: Seq<char>,
}

/// The same memory in another phase.
pub open spec fn in_phase(d: DictationView, p: Phase) -> DictationView {
    DictationView { phase: p, ..d }
}

/// One controller step: from the controller's memory, the shared state and an event, the
/// next memory, the next shared state and the action to perform. Events that do not fit
/// the phase change nothing.
pub open spec fn next(d: DictationView, st: SharedStateView, ev: EventView) -> (DictationView, SharedStateView, ActionView) {
    let unchanged = (d, st, ActionView::Nothing);
    match d.phase {
        Phase::Idle => match ev {
            EventView::Pressed => if st.config.enabled {
                (
                    DictationView { phase: Phase::Starting, language: st.config.language },
                    st,
                    ActionView::StartCapture { microphone: st.config.microphone },
                )
            } else {
                unchanged
            },
            _ => unchanged,
        },
        Phase::Starting => match ev {
            EventView::CaptureStarted { sample_rate } => (
                in_phase(d, Phase::Listening),
                with_status(st, StatusView::Listening),
                ActionView::StartTranscription { sample_rate, language: d.language },
            ),
            EventView::CaptureFailed { message } => (
                in_phase(d, Phase::Idle),
                with_status(st, StatusView::Error(mic_error(message))),
                ActionView::Nothing,
            ),
            _ => unchanged,
        },
        Phase::Listening => match ev {
            EventView::Released => (in_phase(d, Phase::Finishing), st, ActionView::FinishCapture),
            _ => unchanged,
        },
        Phase::Finishing => match ev {
            EventView::Transcribed(t) => {
                let text = trimmed(t);
                if text.len() == 0 {
                    (in_phase(d, Phase::Idle), with_status(st, StatusView::Idle), ActionView::Nothing)
                } else {
                    (
                        in_phase(d, Phase::Injecting),
                        SharedStateView { status: StatusView::Injecting, last_transcript: text, ..st },
                        ActionView::Inject { text },
                    )
                }
            },
            EventView::TranscriptionFailed { message } => (
                in_phase(d, Phase::Idle),
                with_status(st, StatusView::Error(short_error_text(message))),
                ActionView::Nothing,
            ),
            EventView::TranscriptionPanicked => (
                in_phase(d, Phase::Idle),
                with_status(st, StatusView::Error(internal_error())),
                ActionView::Nothing,
            ),
            _ => unchanged,
        },
        Phase::Injecting => match ev {
            EventView::Injected => (in_phase(d, Phase::Idle), with_status(st, StatusView::Idle), ActionView::Nothing),
            EventView::InjectionFailed { message } => (
                in_phase(d, Phase::Idle),
                with_status(st, StatusView::Error(short_error_text(message))),
                ActionView::Nothing,
            ),
            _ => unchanged,
        },
    }
}

// ----------------------------------------------------------------------------
// Laws of the controller
// ----------------------------------------------------------------------------

/// The status the user sees agrees with the phase: "Listening" exactly while audio is
/// captured or its transcript awaited, "Typing" exactly while text is typed.
pub open spec fn consistent(phase: Phase, status: StatusView) -> bool {
    match phase {
        Phase::Listening | Phase::Finishing => status is Listening,
        Phase::Injecting => status is Injecting,
        Phase::Idle | Phase::Starting => !(status is Listening) && !(status is Injecting),
    }
}

/// A sequence of events applied one after another: the final memory and state, and the
/// action of every step.
pub open spec fn run(d: DictationView, st: SharedStateView, evs: Seq<EventView>) -> (DictationView, SharedStateView, Seq<ActionView>)
    decreases evs.len(),
{
    if evs.len() == 0 {
        (d, st, seq![])
    } else {
        let (d1, s1, a1) = next(d, st, evs[0]);
        let (d2, s2, rest) = run(d1, s1, evs.drop_first());
        (d2, s2, seq![a1] + rest)
    }
}

/// A fresh controller over a fresh state is consistent.
pub proof fn lemma_initially_consistent(st: SharedStateView)
    requires
        st.status is Idle,
    ensures
        consistent(Phase::Idle, st.status),
{
}

/// Every step keeps the status consistent with the phase.
pub proof fn lemma_step_keeps_consistency(d: DictationView, st: SharedStateView, ev: EventView)
    requires
        consistent(d.phase, st.status),
    ensures
        consistent(next(d, st, ev).0.phase, next(d, st, ev).1.status),
{
}

/// With dictation disabled, pressing the hotkey changes nothing and does nothing.
pub proof fn lemma_disabled_press_ignored(d: DictationView, st: SharedStateView)
    requires
        !st.config.enabled,
    ensures
        next(d, st, EventView::Pressed) == (d, st, ActionView::Nothing),
{
}

/// Pressing the hotkey while a dictation is already under way changes nothing.
pub proof fn lemma_press_while_busy_ignored(d: DictationView, st: SharedStateView)
    requires
        d.phase != Phase::Idle,
    ensures
        next(d, st, EventView::Pressed) == (d, st, ActionView::Nothing),
{
}

/// Releasing the hotkey when no capture is running changes nothing.
pub proof fn lemma_release_without_capture_ignored(d: DictationView, st: SharedStateView)
    requires
        d.phase != Phase::Listening,
    ensures
        next(d, st, EventView::Released) == (d, st, ActionView::Nothing),
{
}

/// The microphone is used only while the hotkey is held: a capture is started only for a
/// press of the enabled hotkey while idle, audio goes to a provider only once the
/// capture has started, and releasing the hotkey while listening stops the capture.
pub proof fn lemma_capture_only_while_held(d: DictationView, st: SharedStateView, ev: EventView)
    ensures
        next(d, st, ev).2 is StartCapture ==> ev is Pressed && d.phase == Phase::Idle && st.config.enabled,
        next(d, st, ev).2 is StartTranscription ==> ev is CaptureStarted && d.phase == Phase::Starting,
        d.phase == Phase::Listening && ev is Released ==> next(d, st, ev).2 is FinishCapture,
        next(d, st, ev).0.phase == Phase::Listening ==> d.phase == Phase::Listening || ev is CaptureStarted,
{
}

proof fn lemma_run_len(d: DictationView, st: SharedStateView, evs: Seq<EventView>)
    ensures
        run(d, st, evs).2.len() == evs.len(),
    decreases evs.len(),
{
    if evs.len() > 0 {
        let (d1, s1, _a1) = next(d, st, evs[0]);
        lemma_run_len(d1, s1, evs.drop_first());
    }
}

/// The action for the `i`-th event is the step taken from where the events before it led.
proof fn lemma_run_stepwise(d: DictationView, st: SharedStateView, evs: Seq<EventView>, i: int)
    requires
        0 <= i < evs.len(),
    ensures
        run(d, st, evs).2[i] == next(run(d, st, evs.take(i)).0, run(d, st, evs.take(i)).1, evs[i]).2,
    decreases evs.len(),
{
    let (d1, s1, a1) = next(d, st, evs[0]);
    lemma_run_len(d1, s1, evs.drop_first());
    assert(evs.take(0) =~= Seq::<EventView>::empty());
    if i > 0 {
        lemma_run_stepwise(d1, s1, evs.drop_first(), i - 1);
        let pre = evs.take(i);
        assert(pre[0] == evs[0]);
        assert(pre.drop_first() =~= evs.drop_first().take(i - 1));
        assert(evs.drop_first()[i - 1] == evs[i]);
    }
}

/// From idle, events without a press change nothing and do nothing.
proof fn lemma_idle_without_press(d: DictationView, st: SharedStateView, evs: Seq<EventView>)
    requires
        d.phase == Phase::Idle,
        forall|i: int| 0 <= i < evs.len() ==> !(#[trigger] evs[i] is Pressed),
    ensures
        run(d, st, evs).0 == d,
        run(d, st, evs).1 == st,
        forall|i: int| 0 <= i < evs.len() ==> #[trigger] run(d, st, evs).2[i] is Nothing,
    decreases evs.len(),
{
    if evs.len() > 0 {
        assert(!(evs[0] is Pressed));
        let rest = evs.drop_first();
        assert forall|i: int| 0 <= i < rest.len() implies !(#[trigger] rest[i] is Pressed) by {
            assert(rest[i] == evs[i + 1]);
        }
        lemma_idle_without_press(d, st, rest);
        lemma_run_len(d, st, rest);
        let r = run(d, st, evs);
        assert forall|i: int| 0 <= i < evs.len() implies #[trigger] r.2[i] is Nothing by {
            if i > 0 {
                assert(r.2[i] == run(d, st, rest).2[i - 1]);
            }
        }
    }
}

/// Over any sequence of events: a capture is opened only for a press of the enabled
/// hotkey while no capture is live (the controller is idle); a provider (and so the
/// network) is started only once that capture has started; a release while listening
/// stops the capture; and from idle, with no press, no capture is opened, no provider is
/// started, and nothing changes.
pub proof fn lemma_microphone_only_while_held(d: DictationView, st: SharedStateView, evs: Seq<EventView>)
    ensures
        run(d, st, evs).2.len() == evs.len(),
        forall|i: int|
            #![trigger run(d, st, evs).2[i]]
            0 <= i < evs.len() && run(d, st, evs).2[i] is StartCapture ==> evs[i] is Pressed && run(
                d,
                st,
                evs.take(i),
            ).0.phase == Phase::Idle && run(d, st, evs.take(i)).1.config.enabled,
        forall|i: int|
            #![trigger run(d, st, evs).2[i]]
            0 <= i < evs.len() && run(d, st, evs).2[i] is StartTranscription ==> evs[i] is CaptureStarted && run(
                d,
                st,
                evs.take(i),
            ).0.phase == Phase::Starting,
        forall|i: int|
            #![trigger run(d, st, evs).2[i]]
            0 <= i < evs.len() && run(d, st, evs.take(i)).0.phase == Phase::Listening && evs[i] is Released
                ==> run(d, st, evs).2[i] is FinishCapture,
        d.phase == Phase::Idle && (forall|i: int| 0 <= i < evs.len() ==> !(#[trigger] evs[i] is Pressed)) ==> (
        run(d, st, evs).0 == d && run(d, st, evs).1 == st && forall|i: int|
            0 <= i < evs.len() ==> #[trigger] run(d, st, evs).2[i] is Nothing),
{
    lemma_run_len(d, st, evs);
    assert forall|i: int| #![trigger evs[i]] 0 <= i < evs.len() implies ({
        let (di, si, _) = run(d, st, evs.take(i));
        &&& (run(d, st, evs).2[i] is StartCapture ==> evs[i] is Pressed && di.phase == Phase::Idle && si.config.enabled)
        &&& (run(d, st, evs).2[i] is StartTranscription ==> evs[i] is CaptureStarted && di.phase == Phase::Starting)
        &&& (di.phase == Phase::Listening && evs[i] is Released ==> run(d, st, evs).2[i] is FinishCapture)
    }) by {
        lemma_run_stepwise(d, st, evs, i);
        lemma_capture_only_while_held(run(d, st, evs.take(i)).0, run(d, st, evs.take(i)).1, evs[i]);
    }
    if d.phase == Phase::Idle && (forall|i: int| 0 <= i < evs.len() ==> !(#[trigger] evs[i] is Pressed)) {
        lemma_idle_without_press(d, st, evs);
    }
}

/// A transcript that is empty or only whitespace is never typed: the controller goes
/// back to idle and keeps the previous last transcript.
pub proof fn lemma_blank_transcript_not_typed(d: DictationView, st: SharedStateView, t: Seq<char>)
    requires
        d.phase == Phase::Finishing,
        trimmed(t).len() == 0,
    ensures
        next(d, st, EventView::Transcribed(t)) == (
            in_phase(d, Phase::Idle),
            with_status(st, StatusView::Idle),
            ActionView::Nothing,
        ),
{
}

/// After the hotkey is released, whatever the provider reports and whatever the typing
/// reports, the controller is back to idle within two steps.
pub proof fn lemma_dictation_settles(d: DictationView, st: SharedStateView, outcome: EventView, typed: EventView)
    requires
        d.phase == Phase::Finishing,
        outcome is Transcribed || outcome is TranscriptionFailed || outcome is TranscriptionPanicked,
        typed is Injected || typed is InjectionFailed,
    ensures
        ({
            let (d1, s1, _a1) = next(d, st, outcome);
            d1.phase == Phase::Idle || (d1.phase == Phase::Injecting && next(d1, s1, typed).0.phase == Phase::Idle)
        }),
{
}

/// Hold, speak, release, type: with dictation enabled, a press, a started capture, a
/// release, a non-blank transcript and a successful typing start the capture on the
/// configured microphone, stream at the capture's rate in the language configured at the
/// press, type exactly the trimmed transcript, record it as the last transcript, and end
/// idle.
pub proof fn lemma_dictation_cycle(d: DictationView, st: SharedStateView, sample_rate: u32, t: Seq<char>)
    requires
        d.phase == Phase::Idle,
        st.config.enabled,
        trimmed(t).len() > 0,
    ensures
        run(
            d,
            st,
            seq![
                EventView::Pressed,
                EventView::CaptureStarted { sample_rate },
                EventView::Released,
                EventView::Transcribed(t),
                EventView::Injected,
            ],
        ) == (
            DictationView { phase: Phase::Idle, language: st.config.language },
            SharedStateView { status: StatusView::Idle, last_transcript: trimmed(t), ..st },
            seq![
                ActionView::StartCapture { microphone: st.config.microphone },
                ActionView::StartTranscription { sample_rate, language: st.config.language },
                ActionView::FinishCapture,
                ActionView::Inject { text: trimmed(t) },
                ActionView::Nothing,
            ],
        ),
{
    let evs = seq![
        EventView::Pressed,
        EventView::CaptureStarted { sample_rate },
        EventView::Released,
        EventView::Transcribed(t),
        EventView::Injected,
    ];
    reveal_with_fuel(run, 6);
    assert(evs.drop_first() =~= seq![
        EventView::CaptureStarted { sample_rate },
        EventView::Released,
        EventView::Transcribed(t),
        EventView::Injected,
    ]);
    assert(evs.drop_first().drop_first() =~= seq![
        EventView::Released,
        EventView::Transcribed(t),
        EventView::Injected,
    ]);
    assert(evs.drop_first().drop_first().drop_first() =~= seq![
        EventView::Transcribed(t),
        EventView::Injected,
    ]);
    assert(evs.drop_first().drop_first().drop_first().drop_first() =~= seq![EventView::Injected]);
    assert(evs.drop_first().drop_first().drop_first().drop_first().drop_first() =~= Seq::<EventView>::empty());
    let r = run(d, st, evs);
    assert(r.2 =~= seq![
        ActionView::StartCapture { microphone: st.config.microphone },
        ActionView::StartTranscription { sample_rate, language: st.config.language },
        ActionView::FinishCapture,
        ActionView::Inject { text: trimmed(t) },
        ActionView::Nothing,
    ]);
}

/// An error message shown after a failed transcription or typing is a single line of at
/// most 80 characters.
pub proof fn lemma_short_error_is_short(message: Seq<char>)
    ensures
        short_error_text(message).len() <= 80,
        forall|i: int| 0 <= i < short_error_text(message).len() ==> short_error_text(message)[i] != '\n',
{
    if message.len() > 0 {
        crate::text::lemma_first_newline(message);
        let k = crate::text::first_newline(message);
        let line = first_line(message);
        assert(forall|i: int| 0 <= i < line.len() ==> line[i] != '\n');
    }
}

/// Trims an error message to a short, user-facing form: the first line, at most 80
/// characters, or `"error"` when there is no line at all.
pub fn short_error(message: &str) -> (r: String)
    ensures
        r@ == short_error_text(message@),
{
    if message.is_empty() {
        let e = String::from_str("error");
        proof {
            reveal_strlit("error");
            assert(e@ =~= generic_error());
        }
        return e;
    }
    let line = first_line_of(message);
    take_chars(line.as_str(), 80)
}

/// The controller's own state between events.
pub struct Dictation {
    phase: Phase,
    /// The language configured when the hotkey was pressed.
    language: String,
}

impl View for Dictation {
    type V = DictationView;

    closed spec fn view(&self) -> DictationView {
        DictationView { phase: self.phase, language: self.language@ }
    }
}

impl Dictation {
    /// A controller waiting for the hotkey.
    pub fn new() -> (r: Dictation)
        ensures
            r@.phase == Phase::Idle,
    {
        Dictation { phase: Phase::Idle, language: String::new() }
    }

    /// The current phase.
    pub fn phase(&self) -> (r: Phase)
        ensures
            r == self@.phase,
    {
        self.phase
    }

    /// Handles one event: updates the phase and the shared state as [`next`] says and
    /// returns the action to perform.
    pub fn step(&mut self, shared: &mut SharedState, event: ControllerEvent) -> (action: ControllerAction)
        ensures
            (final(self)@, final(shared)@, action@) == next(old(self)@, old(shared)@, event@),
    {
        match (self.phase, event) {
            (Phase::Idle, ControllerEvent::Pressed) => {
                let cfg = shared.config();
                if cfg.enabled {
                    self.phase = Phase::Starting;
                    self.language = cfg.language;
                    ControllerAction::StartCapture { microphone: cfg.microphone }
                } else {
                    ControllerAction::Nothing
                }
            },
            (Phase::Starting, ControllerEvent::CaptureStarted { sample_rate }) => {
                shared.set_status(Status::Listening);
                self.phase = Phase::Listening;
                ControllerAction::StartTranscription {
                    params: StreamParams { sample_rate, language: self.language.clone() },
                }
            },
            (Phase::Starting, ControllerEvent::CaptureFailed { message }) => {
                let prefix = String::from_str("Mic error: ");
                shared.set_status(Status::Error(prefix.concat(message.as_str())));
                self.phase = Phase::Idle;
                ControllerAction::Nothing
            },
            (Phase::Listening, ControllerEvent::Released) => {
                self.phase = Phase::Finishing;
                ControllerAction::FinishCapture
            },
            (Phase::Finishing, ControllerEvent::Transcribed(t)) => {
                let text = trim(t.as_str());
                if text.as_str().is_empty() {
                    shared.set_status(Status::Idle);
                    self.phase = Phase::Idle;
                    ControllerAction::Nothing
                } else {
                    shared.set_last_transcript(text.clone());
                    shared.set_status(Status::Injecting);
                    self.phase = Phase::Injecting;
                    ControllerAction::Inject { text }
                }
            },
            (Phase::Finishing, ControllerEvent::TranscriptionFailed { message }) => {
                shared.set_status(Status::Error(short_error(message.as_str())));
                self.phase = Phase::Idle;
                ControllerAction::Nothing
            },
            (Phase::Finishing, ControllerEvent::TranscriptionPanicked) => {
                shared.set_status(Status::Error(String::from_str("internal error")));
                self.phase = Phase::Idle;
                ControllerAction::Nothing
            },
            (Phase::Injecting, ControllerEvent::Injected) => {
                shared.set_status(Status::Idle);
                self.phase = Phase::Idle;
                ControllerAction::Nothing
            },
            (Phase::Injecting, ControllerEvent::InjectionFailed { message }) => {
                shared.set_status(Status::Error(short_error(message.as_str())));
                self.phase = Phase::Idle;
                ControllerAction::Nothing
            },
            _ => ControllerAction::Nothing,
        }
    }
}

} // verus!
