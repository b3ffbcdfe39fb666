//! Text injection: typing recognized text at the cursor of the focused application.
//!
//! The primary path synthesizes Unicode keystrokes. If that fails, the text is pasted:
//! it is put on the clipboard, the paste shortcut is sent, and after a short pause the
//! clipboard text that was there before is put back (also when the paste shortcut
//! fails, before the failure is reported). The keystrokes and the clipboard
//! belong to the application; [`type_text`] and [`Injection::advance`] decide what to do
//! next from the outcome of the previous action.

use vstd::prelude::*;
use vstd::string::*;

pub mod windows;

verus! {

/// Which platform layer performs the actions.
#[derive(Debug, Clone, Copy, PartialEq, Eq, Structural)]
pub enum Flavor {
    /// Portable keystroke synthesis and clipboard (the clipboard is opened first).
    Portable,
    /// Windows `SendInput` and the Win32 clipboard (opened for each access).
    Windows,
}

/// Where an injection is.
#[derive(Debug, Clone, Copy, PartialEq, Eq, Structural)]
pub enum Stage {
    Typing,
    Opening,
    Reading,
    Writing,
    Pasting,
    Waiting,
    Restoring,
    Finished,
}

/// Why typing failed: the step that failed and the underlying error's text.
#[derive(Debug, Clone)]
pub struct InjectError {
    pub context: String,
    pub detail: String,
}

/// The abstract content of an [`InjectError`].
pub struct InjectErrorView {
    pub context: Seq<char>,
    pub detail: Seq<char>,
}

impl View for InjectError {
    type V = InjectErrorView;

    open spec fn view(&self) -> InjectErrorView {
        InjectErrorView { context: self.context@, detail: self.detail@ }
    }
}

impl InjectError {
    /// The user-facing description: the step that failed.
    pub fn message(&self) -> (r: String)
        ensures
            r@ == self@.context,
    {
        self.context.clone()
    }
}

/// The next thing to do.
#[derive(Debug)]
pub enum InjectAction {
    /// Synthesize keystrokes for this text.
    TypeDirect { text: String },
    /// Open the clipboard.
    OpenClipboard,
    /// Read the clipboard's text (reporting `None` when there is none or it cannot be read).
    ReadClipboard,
    /// Put this text on the clipboard.
    WriteClipboard { text: String },
    /// Send the paste shortcut.
    SendPaste,
    /// Pause so the target application can read the clipboard.
    Wait { millis: u64 },
    /// Finished, with this result.
    Done(Result<(), InjectError>),
}

/// The abstract content of an [`InjectAction`].
pub enum InjectActionView {
    TypeDirect { text: Seq<char> },
    OpenClipboard,
    ReadClipboard,
    WriteClipboard { text: Seq<char> },
    SendPaste,
    Wait { millis: u64 },
    Done(Result<(), InjectErrorView>),
}

impl View for InjectAction {
    type V = InjectActionView;

    open spec fn view(&self) -> InjectActionView {
        match self {
            InjectAction::TypeDirect { text } => InjectActionView::TypeDirect { text: text@ },
            InjectAction::OpenClipboard => InjectActionView::OpenClipboard,
            InjectAction::ReadClipboard => InjectActionView::ReadClipboard,
            InjectAction::WriteClipboard { text } => InjectActionView::WriteClipboard { text: text@ },
            InjectAction::SendPaste => InjectActionView::SendPaste,
            InjectAction::Wait { millis } => InjectActionView::Wait { millis: *millis },
            InjectAction::Done(r) => InjectActionView::Done(
                match r {
                    Ok(()) => Ok(()),
                    Err(e) => Err(e@),
                },
            ),
        }
    }
}

/// The outcome of the previous action: success (carrying the clipboard text for a read),
/// or the error's text.
pub type InjectOutcome = Result<Option<String>, String>;

/// The abstract content of an outcome.
pub open spec fn outcome_view(o: InjectOutcome) -> Result<Option<Seq<char>>, Seq<char>> {
    match o {
        Ok(Some(t)) => Ok(Some(t@)),
        Ok(None) => Ok(None),
        Err(e) => Err(e@),
    }
}

/// An injection in progress.
pub struct Injection {
    flavor: Flavor,
    stage: Stage,
    text: String,
    previous: Option<String>,
    /// The error to report once the clipboard has been put back.
    failure: Option<InjectError>,
}

/// The abstract content of an [`Injection`].
pub struct InjectionView {
    pub flavor: Flavor,
    pub stage: Stage,
    pub text: Seq<char>,
    pub previous: Option<Seq<char>>,
    pub failure: Option<InjectErrorView>,
}

impl View for Injection {
    type V = InjectionView;

    closed spec fn view(&self) -> InjectionView {
        InjectionView {
            flavor: self.flavor,
            stage: self.stage,
            text: self.text@,
            previous: match self.previous {
                Some(p) => Some(p@),
                None => None,
            },
            failure: match self.failure {
                Some(e) => Some(e@),
                None => None,
            },
        }
    }
}

/// How long the target application gets to read the clipboard.
pub const PASTE_PAUSE_MS: u64 = 120;

pub open spec fn ctx_opening() -> Seq<char> {
    "opening clipboard"@
}

pub open spec fn ctx_setting() -> Seq<char> {
    "setting clipboard text"@
}

/// The context of a failed paste shortcut.
pub open spec fn ctx_pasting(flavor: Flavor) -> Seq<char> {
    match flavor {
        Flavor::Portable => "sending paste shortcut"@,
        Flavor::Windows => "sending Ctrl+V"@,
    }
}

pub open spec fn failed(context: Seq<char>, detail: Seq<char>) -> InjectActionView {
    InjectActionView::Done(Err(InjectErrorView { context, detail }))
}

/// How an injection starts: empty text needs nothing; otherwise keystrokes are tried.
pub open spec fn inject_start(flavor: Flavor, text: Seq<char>) -> (InjectionView, InjectActionView) {
    if text.len() == 0 {
        (
            InjectionView { flavor, stage: Stage::Finished, text, previous: None, failure: None },
            InjectActionView::Done(Ok(())),
        )
    } else {
        (
            InjectionView { flavor, stage: Stage::Typing, text, previous: None, failure: None },
            InjectActionView::TypeDirect { text },
        )
    }
}

/// One injection step from the outcome of the previous action.
pub open spec fn inject_next(s: InjectionView, o: Result<Option<Seq<char>>, Seq<char>>) -> (InjectionView, InjectActionView) {
    let done = InjectionView { stage: Stage::Finished, ..s };
    match s.stage {
        Stage::Typing => match o {
            Ok(_) => (done, InjectActionView::Done(Ok(()))),
            Err(_) => match s.flavor {
                Flavor::Portable => (InjectionView { stage: Stage::Opening, ..s }, InjectActionView::OpenClipboard),
                Flavor::Windows => (InjectionView { stage: Stage::Reading, ..s }, InjectActionView::ReadClipboard),
            },
        },
        Stage::Opening => match o {
            Ok(_) => (InjectionView { stage: Stage::Reading, ..s }, InjectActionView::ReadClipboard),
            Err(e) => (done, failed(ctx_opening(), e)),
        },
        Stage::Reading => {
            let previous = match o {
                Ok(p) => p,
                Err(_) => None,
            };
            (
                InjectionView { stage: Stage::Writing, previous, ..s },
                InjectActionView::WriteClipboard { text: s.text },
            )
        },
        Stage::Writing => match o {
            Ok(_) => (InjectionView { stage: Stage::Pasting, ..s }, InjectActionView::SendPaste),
            Err(e) => (done, failed(ctx_setting(), e)),
        },
        Stage::Pasting => match o {
            Ok(_) => (
                InjectionView { stage: Stage::Waiting, ..s },
                InjectActionView::Wait { millis: PASTE_PAUSE_MS },
            ),
            Err(e) => match s.previous {
                Some(p) => (
                    InjectionView {
                        stage: Stage::Restoring,
                        failure: Some(InjectErrorView { context: ctx_pasting(s.flavor), detail: e }),
                        ..s
                    },
                    InjectActionView::WriteClipboard { text: p },
                ),
                None => (done, failed(ctx_pasting(s.flavor), e)),
            },
        },
        Stage::Waiting => match s.previous {
            Some(p) => (
                InjectionView { stage: Stage::Restoring, ..s },
                InjectActionView::WriteClipboard { text: p },
            ),
            None => (done, InjectActionView::Done(Ok(()))),
        },
        Stage::Restoring => (
            InjectionView { stage: Stage::Finished, failure: None, ..s },
            match s.failure {
                Some(f) => InjectActionView::Done(Err(f)),
                None => InjectActionView::Done(Ok(())),
            },
        ),
        Stage::Finished => (done, InjectActionView::Done(Ok(()))),
    }
}

/// Starts typing `text` with the given platform layer.
pub fn start_injection(flavor: Flavor, text: &str) -> (r: (Injection, InjectAction))
    ensures
        (r.0@, r.1@) == inject_start(flavor, text@),
{
    let t = text.to_owned();
    if text.is_empty() {
        (
            Injection { flavor, stage: Stage::Finished, text: t, previous: None, failure: None },
            InjectAction::Done(Ok(())),
        )
    } else {
        let action = InjectAction::TypeDirect { text: t.clone() };
        (Injection { flavor, stage: Stage::Typing, text: t, previous: None, failure: None }, action)
    }
}

/// Types `text` into the focused application at the cursor position: the first action.
pub fn type_text(text: &str) -> (r: (Injection, InjectAction))
    ensures
        (r.0@, r.1@) == inject_start(Flavor::Portable, text@),
{
    start_injection(Flavor::Portable, text)
}

fn error_action(context: &str, detail: String) -> (a: InjectAction)
    ensures
        a@ == failed(context@, detail@),
{
    InjectAction::Done(Err(InjectError { context: context.to_owned(), detail }))
}

impl Injection {
    /// Whether the injection has finished.
    pub fn is_finished(&self) -> (r: bool)
        ensures
            r == (self@.stage == Stage::Finished),
    {
        self.stage == Stage::Finished
    }

    /// Takes the outcome of the previous action and returns the next action.
    pub fn advance(&mut self, outcome: InjectOutcome) -> (a: InjectAction)
        ensures
            (final(self)@, a@) == inject_next(old(self)@, outcome_view(outcome)),
    {
        match self.stage {
            Stage::Typing => match outcome {
                Ok(_) => {
                    self.stage = Stage::Finished;
                    InjectAction::Done(Ok(()))
                },
                Err(_) => match self.flavor {
                    Flavor::Portable => {
                        self.stage = Stage::Opening;
                        InjectAction::OpenClipboard
                    },
                    Flavor::Windows => {
                        self.stage = Stage::Reading;
                        InjectAction::ReadClipboard
                    },
                },
            },
            Stage::Opening => match outcome {
                Ok(_) => {
                    self.stage = Stage::Reading;
                    InjectAction::ReadClipboard
                },
                Err(e) => {
                    self.stage = Stage::Finished;
                    error_action("opening clipboard", e)
                },
            },
            Stage::Reading => {
                self.previous = match outcome {
                    Ok(p) => p,
                    Err(_) => None,
                };
                self.stage = Stage::Writing;
                InjectAction::WriteClipboard { text: self.text.clone() }
            },
            Stage::Writing => match outcome {
                Ok(_) => {
                    self.stage = Stage::Pasting;
                    InjectAction::SendPaste
                },
                Err(e) => {
                    self.stage = Stage::Finished;
                    error_action("setting clipboard text", e)
                },
            },
            Stage::Pasting => match outcome {
                Ok(_) => {
                    self.stage = Stage::Waiting;
                    InjectAction::Wait { millis: PASTE_PAUSE_MS }
                },
                Err(e) => {
                    let context = match self.flavor {
                        Flavor::Portable => "sending paste shortcut",
                        Flavor::Windows => "sending Ctrl+V",
                    };
                    match &self.previous {
                        Some(p) => {
                            let p = p.clone();
                            self.failure = Some(InjectError { context: context.to_owned(), detail: e });
                            self.stage = Stage::Restoring;
                            InjectAction::WriteClipboard { text: p }
                        },
                        None => {
                            self.stage = Stage::Finished;
                            error_action(context, e)
                        },
                    }
                },
            },
            Stage::Waiting => match &self.previous {
                Some(p) => {
                    let p = p.clone();
                    self.stage = Stage::Restoring;
                    InjectAction::WriteClipboard { text: p }
                },
                None => {
                    self.stage = Stage::Finished;
                    InjectAction::Done(Ok(()))
                },
            },
            Stage::Restoring => {
                self.stage = Stage::Finished;
                match self.failure.take() {
                    Some(f) => InjectAction::Done(Err(f)),
                    None => InjectAction::Done(Ok(())),
                }
            },
            Stage::Finished => InjectAction::Done(Ok(())),
        }
    }
}

// ----------------------------------------------------------------------------
// Laws of injection
// ----------------------------------------------------------------------------

/// The actions an injection takes for a run of outcomes, after its first action.
pub open spec fn inject_run(s: InjectionView, outcomes: Seq<Result<Option<Seq<char>>, Seq<char>>>) -> (InjectionView, Seq<InjectActionView>)
    decreases outcomes.len(),
{
    if outcomes.len() == 0 {
        (s, seq![])
    } else {
        let (s1, a1) = inject_next(s, outcomes[0]);
        let (s2, rest) = inject_run(s1, outcomes.drop_first());
        (s2, seq![a1] + rest)
    }
}

/// Empty text needs no keystrokes and succeeds at once.
pub proof fn lemma_empty_text_done(flavor: Flavor)
    ensures
        inject_start(flavor, Seq::empty()).1 == InjectActionView::Done(Ok(())),
{
}

/// When keystroke synthesis works, the clipboard is never touched.
pub proof fn lemma_direct_success_leaves_clipboard(flavor: Flavor, text: Seq<char>, o: Option<Seq<char>>)
    requires
        text.len() > 0,
    ensures
        inject_start(flavor, text).1 == (InjectActionView::TypeDirect { text }),
        inject_next(inject_start(flavor, text).0, Ok(o)).1 == InjectActionView::Done(Ok(())),
{
}

/// The paste fallback types exactly the text and then puts the previous clipboard text
/// back: after the keystrokes fail, the clipboard opens, holds `previous`, takes the text
/// and the paste goes through, the last action before success writes `previous` back.
pub proof fn lemma_fallback_restores_clipboard(text: Seq<char>, previous: Seq<char>, err: Seq<char>)
    requires
        text.len() > 0,
    ensures
        inject_run(
            inject_start(Flavor::Portable, text).0,
            seq![
                Err(err),
                Ok(None),
                Ok(Some(previous)),
                Ok(None),
                Ok(None),
                Ok(None),
                Ok(None),
            ],
        ).1 == seq![
            InjectActionView::OpenClipboard,
            InjectActionView::ReadClipboard,
            InjectActionView::WriteClipboard { text },
            InjectActionView::SendPaste,
            InjectActionView::Wait { millis: PASTE_PAUSE_MS },
            InjectActionView::WriteClipboard { text: previous },
            InjectActionView::Done(Ok(())),
        ],
{
    let os: Seq<Result<Option<Seq<char>>, Seq<char>>> = seq![
        Err(err),
        Ok(None),
        Ok(Some(previous)),
        Ok(None),
        Ok(None),
        Ok(None),
        Ok(None),
    ];
    reveal_with_fuel(inject_run, 8);
    assert(os.drop_first() =~= seq![Ok(None), Ok(Some(previous)), Ok(None), Ok(None), Ok(None), Ok(None)]);
    assert(os.drop_first().drop_first() =~= seq![Ok(Some(previous)), Ok(None), Ok(None), Ok(None), Ok(None)]);
    assert(os.drop_first().drop_first().drop_first() =~= seq![Ok(None), Ok(None), Ok(None), Ok(None)]);
    assert(os.drop_first().drop_first().drop_first().drop_first() =~= seq![Ok(None), Ok(None), Ok(None)]);
    assert(os.drop_first().drop_first().drop_first().drop_first().drop_first() =~= seq![Ok(None), Ok(None)]);
    assert(os.drop_first().drop_first().drop_first().drop_first().drop_first().drop_first() =~= seq![Ok(None)]);
    assert(os.drop_first().drop_first().drop_first().drop_first().drop_first().drop_first().drop_first() =~= Seq::<Result<Option<Seq<char>>, Seq<char>>>::empty());
    let r = inject_run(inject_start(Flavor::Portable, text).0, os);
    assert(r.1 =~= seq![
        InjectActionView::OpenClipboard,
        InjectActionView::ReadClipboard,
        InjectActionView::WriteClipboard { text },
        InjectActionView::SendPaste,
        InjectActionView::Wait { millis: PASTE_PAUSE_MS },
        InjectActionView::WriteClipboard { text: previous },
        InjectActionView::Done(Ok(())),
    ]);
}

/// A failure waits to be reported only while the clipboard is being restored: every
/// injection starts without one, and each step keeps it so.
pub proof fn lemma_failure_only_while_restoring(
    flavor: Flavor,
    text: Seq<char>,
    s: InjectionView,
    o: Result<Option<Seq<char>>, Seq<char>>,
)
    ensures
        inject_start(flavor, text).0.failure is None,
        (s.stage != Stage::Restoring ==> s.failure is None) ==> (inject_next(s, o).0.stage != Stage::Restoring
            ==> inject_next(s, o).0.failure is None),
{
}

/// Whatever the platform layer, once the paste has gone through and the pause is over,
/// the clipboard text that was there before is written back before anything else, and
/// that write, however it goes, ends the injection successfully; with nothing saved, the
/// injection succeeds at once.
pub proof fn lemma_restore_after_pause(
    s: InjectionView,
    o: Result<Option<Seq<char>>, Seq<char>>,
    o2: Result<Option<Seq<char>>, Seq<char>>,
)
    requires
        s.stage == Stage::Waiting,
        s.failure is None,
    ensures
        s.previous matches Some(p) ==> inject_next(s, o).1 == (InjectActionView::WriteClipboard { text: p })
            && inject_next(inject_next(s, o).0, o2).1 == InjectActionView::Done(Ok(()))
            && inject_next(inject_next(s, o).0, o2).0.stage == Stage::Finished,
        s.previous is None ==> inject_next(s, o).1 == InjectActionView::Done(Ok(()))
            && inject_next(s, o).0.stage == Stage::Finished,
{
}

/// The Windows fallback also types exactly the text and then puts the previous clipboard
/// text back: after the keystrokes fail, the clipboard holds `previous`, takes the text
/// and the paste goes through, the last action before success writes `previous` back.
pub proof fn lemma_windows_fallback_restores_clipboard(text: Seq<char>, previous: Seq<char>, err: Seq<char>)
    requires
        text.len() > 0,
    ensures
        inject_run(
            inject_start(Flavor::Windows, text).0,
            seq![Err(err), Ok(Some(previous)), Ok(None), Ok(None), Ok(None), Ok(None)],
        ).1 == seq![
            InjectActionView::ReadClipboard,
            InjectActionView::WriteClipboard { text },
            InjectActionView::SendPaste,
            InjectActionView::Wait { millis: PASTE_PAUSE_MS },
            InjectActionView::WriteClipboard { text: previous },
            InjectActionView::Done(Ok(())),
        ],
{
    let os: Seq<Result<Option<Seq<char>>, Seq<char>>> = seq![
        Err(err),
        Ok(Some(previous)),
        Ok(None),
        Ok(None),
        Ok(None),
        Ok(None),
    ];
    reveal_with_fuel(inject_run, 7);
    assert(os.drop_first() =~= seq![Ok(Some(previous)), Ok(None), Ok(None), Ok(None), Ok(None)]);
    assert(os.drop_first().drop_first() =~= seq![Ok(None), Ok(None), Ok(None), Ok(None)]);
    assert(os.drop_first().drop_first().drop_first() =~= seq![Ok(None), Ok(None), Ok(None)]);
    assert(os.drop_first().drop_first().drop_first().drop_first() =~= seq![Ok(None), Ok(None)]);
    assert(os.drop_first().drop_first().drop_first().drop_first().drop_first() =~= seq![Ok(None)]);
    assert(os.drop_first().drop_first().drop_first().drop_first().drop_first().drop_first() =~= Seq::<Result<Option<Seq<char>>, Seq<char>>>::empty());
    let r = inject_run(inject_start(Flavor::Windows, text).0, os);
    assert(r.1 =~= seq![
        InjectActionView::ReadClipboard,
        InjectActionView::WriteClipboard { text },
        InjectActionView::SendPaste,
        InjectActionView::Wait { millis: PASTE_PAUSE_MS },
        InjectActionView::WriteClipboard { text: previous },
        InjectActionView::Done(Ok(())),
    ]);
}

/// A failure while opening the clipboard, setting its text, or sending the paste shortcut
/// when there is no earlier clipboard text to put back, ends the injection, naming the
/// step that failed and keeping the error's text.
pub proof fn lemma_failure_names_step(s: InjectionView, e: Seq<char>)
    requires
        s.stage == Stage::Opening || s.stage == Stage::Writing || (s.stage == Stage::Pasting
            && s.previous is None),
    ensures
        inject_next(s, Err(e)).0.stage == Stage::Finished,
        inject_next(s, Err(e)).1 == failed(
            match s.stage {
                Stage::Opening => ctx_opening(),
                Stage::Writing => ctx_setting(),
                _ => ctx_pasting(s.flavor),
            },
            e,
        ),
{
}

/// A failed paste shortcut still gives the clipboard back: the earlier clipboard text is
/// written back first, and then the failure is reported, naming the paste step.
pub proof fn lemma_failed_paste_restores_clipboard(
    s: InjectionView,
    previous: Seq<char>,
    e: Seq<char>,
    o: Result<Option<Seq<char>>, Seq<char>>,
)
    requires
        s.stage == Stage::Pasting,
        s.previous == Some(previous),
    ensures
        inject_next(s, Err(e)).1 == (InjectActionView::WriteClipboard { text: previous }),
        inject_next(inject_next(s, Err(e)).0, o).1 == failed(ctx_pasting(s.flavor), e),
        inject_next(inject_next(s, Err(e)).0, o).0.stage == Stage::Finished,
{
}

/// How many steps an injection at this stage has left, at most.
pub open spec fn steps_left(st: Stage) -> nat {
    match st {
        Stage::Typing => 7,
        Stage::Opening => 6,
        Stage::Reading => 5,
        Stage::Writing => 4,
        Stage::Pasting => 3,
        Stage::Waiting => 2,
        Stage::Restoring => 1,
        Stage::Finished => 0,
    }
}

proof fn lemma_step_descends(s: InjectionView, o: Result<Option<Seq<char>>, Seq<char>>)
    ensures
        s.stage != Stage::Finished ==> steps_left(inject_next(s, o).0.stage) < steps_left(s.stage),
        s.stage == Stage::Finished ==> inject_next(s, o).0.stage == Stage::Finished,
{
}

proof fn lemma_run_finishes(s: InjectionView, outcomes: Seq<Result<Option<Seq<char>>, Seq<char>>>)
    requires
        outcomes.len() >= steps_left(s.stage),
    ensures
        inject_run(s, outcomes).0.stage == Stage::Finished,
    decreases outcomes.len(),
{
    if outcomes.len() == 0 {
    } else {
        lemma_step_descends(s, outcomes[0]);
        lemma_run_finishes(inject_next(s, outcomes[0]).0, outcomes.drop_first());
    }
}

/// Typing always ends: whatever the outcomes, after at most seven of them the injection
/// has finished.
pub proof fn lemma_injection_finishes(
    flavor: Flavor,
    text: Seq<char>,
    outcomes: Seq<Result<Option<Seq<char>>, Seq<char>>>,
)
    requires
        outcomes.len() >= 7,
    ensures
        inject_run(inject_start(flavor, text).0, outcomes).0.stage == Stage::Finished,
{
    lemma_run_finishes(inject_start(flavor, text).0, outcomes);
}

} // verus!
