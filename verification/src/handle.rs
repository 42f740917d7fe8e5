use vstd::prelude::*;

use crate::error::{error_message, MpvError};
use crate::text::{append_signed_decimal, decimal_text};

verus! {

/// Specifies the precision and strategy for seek operations.
#[derive(Debug, Copy, Clone, PartialEq, Eq, Structural)]
pub enum SeekMode {
    /// Jumps to the exact requested frame or timestamp by decoding intermediate frames.
    Exact,
    /// Jumps to the nearest keyframe (fastest, lower precision).
    Keyframe,
    /// Seeks relative to current position.
    Relative,
}

/// The flag that names a seek mode in mpv's `seek` command.
pub open spec fn seek_flag(mode: SeekMode) -> Seq<char> {
    match mode {
        SeekMode::Exact => "exact"@,
        SeekMode::Keyframe => "keyframes"@,
        SeekMode::Relative => "relative"@,
    }
}

impl SeekMode {
    /// The flag that names this mode in mpv's `seek` command.
    pub fn as_str(&self) -> (flag: &'static str)
        ensures
            flag@ == seek_flag(*self),
    {
        match self {
            SeekMode::Exact => "exact",
            SeekMode::Keyframe => "keyframes",
            SeekMode::Relative => "relative",
        }
    }
}

/// A live, initialized mpv client context, known by the address of its
/// context, which is never null.
pub struct MpvHandle {
    raw: usize,
}

impl MpvHandle {
    #[verifier::type_invariant]
    spec fn address_is_not_null(self) -> bool {
        self.raw != 0
    }
}

impl View for MpvHandle {
    type V = usize;

    closed spec fn view(&self) -> usize {
        self.raw
    }
}

/// The view of a setup step: what it sets, or that it initializes.
pub enum StepView {
    SetOption { name: Seq<char>, value: Seq<char>, required: bool },
    Initialize,
}

/// One step of preparing a client context after it has been created.
pub enum SetupStep {
    /// Set option `name` to `value`. Where `required`, a failure ends the setup
    /// with that failure; otherwise a failure is ignored.
    SetOption { name: String, value: String, required: bool },
    /// Initialize the context.
    Initialize,
}

impl View for SetupStep {
    type V = StepView;

    open spec fn view(&self) -> StepView {
        match self {
            SetupStep::SetOption { name, value, required } => StepView::SetOption {
                name: name@,
                value: value@,
                required: *required,
            },
            SetupStep::Initialize => StepView::Initialize,
        }
    }
}

/// Where a setup stands.
#[derive(Debug, Copy, Clone, PartialEq, Eq, Structural)]
pub enum SetupStage {
    /// The context is still to be created.
    Creating,
    /// The step at `next` is under way.
    Running,
    /// Every step is done: the handle is ready.
    Succeeded,
    /// The setup failed; the context, if one was created, is to be destroyed.
    Failed,
}

/// The view of a setup: its steps, its stage, the step under way and the
/// address of the created context (0 before creation).
pub struct SetupView {
    pub steps: Seq<StepView>,
    pub stage: SetupStage,
    pub next: nat,
    pub raw: usize,
}

impl SetupView {
    pub open spec fn well_formed(self) -> bool {
        &&& self.next <= self.steps.len()
        &&& self.stage == SetupStage::Running ==> self.next < self.steps.len()
        &&& self.stage == SetupStage::Succeeded ==> self.next == self.steps.len()
        &&& (self.stage == SetupStage::Running || self.stage == SetupStage::Succeeded)
            ==> self.raw != 0
        &&& self.stage == SetupStage::Creating ==> self.next == 0 && self.raw == 0
    }
}

/// mpv's answer to setting an option.
pub enum OptionReply {
    /// The status mpv returned, with mpv's description of it (`None` where
    /// mpv gave none).
    Status { code: i32, text: Option<String> },
    /// The name or value could not be handed to mpv; the text says why.
    InvalidArgument(String),
}

/// What happened to the last action of a setup.
pub enum SetupEvent {
    /// The context was created at address `raw` (0: allocation failed).
    Created { raw: usize },
    /// mpv answered the setting of an option.
    OptionApplied(OptionReply),
    /// `mpv_initialize` returned `status`.
    Initialized { status: i32 },
}

/// What a setup asks to be done next.
pub enum SetupAction {
    /// Create the client context.
    Create,
    /// Set option `name` to `value` on the context.
    SetOption { name: String, value: String },
    /// Initialize the context.
    Initialize,
    /// The setup is over: the ready handle, which owns the created context,
    /// or the failure, after which `HandleSetup::context_to_destroy` names the
    /// context to destroy, if one was created.
    Finish(Result<MpvHandle, MpvError>),
}

/// Where a setup stands, as one value: its stage, the step under way and the
/// address of the created context.
#[derive(Clone, Copy)]
struct Progress {
    stage: SetupStage,
    next: usize,
    raw: usize,
}

/// The protocol that turns a fresh client context into a ready handle: the
/// context is created, then each step runs in order.
pub struct HandleSetup {
    steps: Vec<SetupStep>,
    progress: Progress,
}

impl View for HandleSetup {
    type V = SetupView;

    closed spec fn view(&self) -> SetupView {
        SetupView {
            steps: self.steps@.map_values(|s: SetupStep| s@),
            stage: self.progress.stage,
            next: self.progress.next as nat,
            raw: self.progress.raw,
        }
    }
}

impl HandleSetup {
    #[verifier::type_invariant]
    spec fn is_well_formed(self) -> bool {
        self@.well_formed()
    }
}

/// The context that a setup in state `v` leaves to be destroyed: the created
/// one once the setup has failed, none before creation, after a failed
/// allocation, while it runs, or once it has handed the context to a handle.
pub open spec fn to_destroy(v: SetupView) -> Option<usize> {
    if v.stage == SetupStage::Failed && v.raw != 0 {
        Some(v.raw)
    } else {
        None
    }
}

/// Whether a setup in state `v` takes `event` as the answer to its last action.
pub open spec fn accepts(v: SetupView, event: SetupEvent) -> bool {
    match v.stage {
        SetupStage::Creating => event is Created,
        SetupStage::Running => match v.steps[v.next as int] {
            StepView::SetOption { .. } => event is OptionApplied,
            StepView::Initialize => event is Initialized,
        },
        _ => false,
    }
}

/// Whether mpv's answer to an option is a failure.
pub open spec fn reply_fails(reply: OptionReply) -> bool {
    match reply {
        OptionReply::Status { code, .. } => code < 0,
        OptionReply::InvalidArgument(_) => true,
    }
}

/// Whether a failure of the step would end the setup.
pub open spec fn step_required(step: StepView) -> bool {
    match step {
        StepView::SetOption { required, .. } => required,
        StepView::Initialize => true,
    }
}

/// The state in which the step at `i` is under way, or every step is done.
pub open spec fn proceed(v: SetupView, i: nat) -> SetupView {
    SetupView {
        steps: v.steps,
        stage: if i >= v.steps.len() { SetupStage::Succeeded } else { SetupStage::Running },
        next: i,
        raw: v.raw,
    }
}

/// The state that has failed.
pub open spec fn failed(v: SetupView) -> SetupView {
    SetupView { steps: v.steps, stage: SetupStage::Failed, next: v.next, raw: v.raw }
}

/// The state of a setup in state `v` after `event`.
pub open spec fn after(v: SetupView, event: SetupEvent) -> SetupView {
    match event {
        SetupEvent::Created { raw } => if raw == 0 {
            failed(v)
        } else {
            proceed(SetupView { steps: v.steps, stage: v.stage, next: 0, raw }, 0)
        },
        SetupEvent::OptionApplied(reply) => if reply_fails(reply) && step_required(
            v.steps[v.next as int],
        ) {
            failed(v)
        } else {
            proceed(v, v.next + 1)
        },
        SetupEvent::Initialized { status } => if status < 0 {
            failed(v)
        } else {
            proceed(v, v.next + 1)
        },
    }
}

/// The text of an initialization failure with status `status`.
pub open spec fn init_failure_text(status: i32) -> Seq<char> {
    "mpv_initialize failed with status "@ + decimal_text(status as int)
}

/// `error` is the failure that `event` caused.
pub open spec fn failure_of(event: SetupEvent, error: MpvError) -> bool {
    match event {
        SetupEvent::Created { .. } => error is AllocationFailed,
        SetupEvent::OptionApplied(OptionReply::Status { code, text }) => error matches MpvError::Internal {
            code: c,
            message: m,
        } && c == code && m@ == error_message(text),
        SetupEvent::OptionApplied(OptionReply::InvalidArgument(m)) => error
            == MpvError::InvalidCString(m),
        SetupEvent::Initialized { status } => error matches MpvError::InitializationFailed(m)
            && m@ == init_failure_text(status),
    }
}

/// `action` is what a setup asks for in state `v` while it runs or once it has
/// succeeded: the step under way, or the ready handle.
pub open spec fn issues(v: SetupView, action: SetupAction) -> bool {
    match v.stage {
        SetupStage::Running => match v.steps[v.next as int] {
            StepView::SetOption { name, value, .. } => action matches SetupAction::SetOption {
                name: n,
                value: x,
            } && n@ == name && x@ == value,
            StepView::Initialize => action is Initialize,
        },
        SetupStage::Succeeded => action matches SetupAction::Finish(Ok(h)) && h@ == v.raw,
        _ => false,
    }
}

/// `action` is what a setup asks for once it has reached state `v` through
/// `event`: on failure, the end with the failure that `event` caused.
pub open spec fn action_fits(v: SetupView, event: SetupEvent, action: SetupAction) -> bool {
    if v.stage == SetupStage::Failed {
        action matches SetupAction::Finish(Err(e)) && failure_of(event, e)
    } else {
        issues(v, action)
    }
}

/// The state of a setup in state `v` after each of `events` in turn.
pub open spec fn run(v: SetupView, events: Seq<SetupEvent>) -> SetupView
    decreases events.len(),
{
    if events.len() == 0 {
        v
    } else {
        run(after(v, events[0]), events.drop_first())
    }
}

/// `event` answers `step` without ending the setup: a reply of any kind to
/// an optional option, a successful reply to a required one, a non-negative
/// initialization status.
pub open spec fn lets_pass(step: StepView, event: SetupEvent) -> bool {
    match step {
        StepView::SetOption { required, .. } => event matches SetupEvent::OptionApplied(r) && (
        required ==> !reply_fails(r)),
        StepView::Initialize => event matches SetupEvent::Initialized { status } && status >= 0,
    }
}

impl MpvHandle {
    /// Returns the address of the underlying client context, never null.
    pub fn as_raw(&self) -> (raw: usize)
        ensures
            raw == self@,
            raw != 0,
    {
        proof {
            use_type_invariant(self);
        }
        self.raw
    }

    /// The setup of a new handle tailored for headless and embedded operation:
    /// create a context, switch off windows, on-screen controls, scripts and
    /// configuration files, then initialize it.
    pub fn new() -> (setup: HandleSetup)
        ensures
            setup@ == fresh(headless_steps()),
            setup@.well_formed(),
    {
        let mut steps: Vec<SetupStep> = Vec::new();
        append_headless_steps(&mut steps);
        HandleSetup::from_steps(steps)
    }

    /// Splits the packed client API version into its major (high 16 bits)
    /// and minor (low 16 bits) numbers.
    pub fn api_version_from(packed: u64) -> (version: (u16, u16))
        ensures
            version.0 == (packed / 0x10000) % 0x10000,
            version.1 == packed % 0x10000,
    {
        let major = ((packed >> 16) & 0xFFFF) as u16;
        let minor = (packed & 0xFFFF) as u16;
        assert((packed >> 16) & 0xFFFF == (packed / 0x10000) % 0x10000) by (bit_vector);
        assert(packed & 0xFFFF == packed % 0x10000) by (bit_vector);
        (major, minor)
    }

    /// The arguments of mpv's `seek` command to `position` (seconds, as
    /// text) in `mode`: a relative seek moves by `position` from the current
    /// position; the other modes move to the absolute position `position`
    /// with their precision flag.
    pub fn seek_args<'a>(position: &'a str, mode: SeekMode) -> (args: Vec<&'a str>)
        ensures
            args@[0]@ == "seek"@,
            args@[1]@ == position@,
            mode == SeekMode::Relative ==> args@.len() == 3 && args@[2]@ == "relative"@,
            mode != SeekMode::Relative ==> args@.len() == 4 && args@[2]@ == "absolute"@
                && args@[3]@ == seek_flag(mode),
    {
        let mut args: Vec<&'a str> = Vec::new();
        args.push("seek");
        args.push(position);
        match mode {
            SeekMode::Relative => {
                args.push("relative");
            },
            _ => {
                args.push("absolute");
                args.push(mode.as_str());
            },
        }
        args
    }
}

/// Packing a major and a minor number into the client API version and
/// splitting it again gives both back.
pub proof fn lemma_api_version_roundtrip(major: u16, minor: u16)
    ensures
        ((major as u64) * 0x10000 + minor as u64) / 0x10000 % 0x10000 == major,
        ((major as u64) * 0x10000 + minor as u64) % 0x10000 == minor,
{
    assert(((major as u64) * 0x10000 + minor as u64) / 0x10000 % 0x10000 == major) by (
    nonlinear_arith);
    assert(((major as u64) * 0x10000 + minor as u64) % 0x10000 == minor) by (nonlinear_arith);
}

/// A required option set to a value.
pub open spec fn required_option(name: Seq<char>, value: Seq<char>) -> StepView {
    StepView::SetOption { name, value, required: true }
}

/// The steps that prepare a sandboxed context for headless and embedded
/// operation: no window, no on-screen controller or bar, no scripts, no
/// configuration files, then initialization.
pub open spec fn headless_steps() -> Seq<StepView> {
    seq![
        required_option("force-window"@, "no"@),
        required_option("osc"@, "no"@),
        required_option("osd-bar"@, "no"@),
        required_option("load-scripts"@, "no"@),
        required_option("config"@, "no"@),
        StepView::Initialize,
    ]
}

/// A setup that has not started on the steps `steps`.
pub open spec fn fresh(steps: Seq<StepView>) -> SetupView {
    SetupView { steps, stage: SetupStage::Creating, next: 0, raw: 0 }
}

impl SetupStep {
    /// The step that sets option `name` to `value`.
    pub fn option(name: &str, value: &str, required: bool) -> (step: SetupStep)
        ensures
            step@ == (StepView::SetOption { name: name@, value: value@, required }),
    {
        SetupStep::SetOption {
            name: String::from_str(name),
            value: String::from_str(value),
            required,
        }
    }
}

/// Appends the headless steps (see `headless_steps`) to `steps`.
pub fn append_headless_steps(steps: &mut Vec<SetupStep>)
    ensures
        final(steps)@.map_values(|s: SetupStep| s@) == old(steps)@.map_values(|s: SetupStep| s@)
            + headless_steps(),
{
    steps.push(SetupStep::option("force-window", "no", true));
    steps.push(SetupStep::option("osc", "no", true));
    steps.push(SetupStep::option("osd-bar", "no", true));
    steps.push(SetupStep::option("load-scripts", "no", true));
    steps.push(SetupStep::option("config", "no", true));
    steps.push(SetupStep::Initialize);
    assert(steps@.map_values(|s: SetupStep| s@) =~= old(steps)@.map_values(|s: SetupStep| s@)
        + headless_steps());
}

impl HandleSetup {
    /// A setup that will create a context and then run `steps` in order.
    pub fn from_steps(steps: Vec<SetupStep>) -> (setup: HandleSetup)
        ensures
            setup@ == fresh(steps@.map_values(|s: SetupStep| s@)),
            setup@.well_formed(),
    {
        HandleSetup { steps, progress: Progress { stage: SetupStage::Creating, next: 0, raw: 0 } }
    }

    /// The first action of every setup: create the context.
    pub fn first_action(&self) -> (action: SetupAction)
        ensures
            action is Create,
    {
        SetupAction::Create
    }

    /// Where the setup stands.
    pub fn stage(&self) -> (stage: SetupStage)
        ensures
            stage == self@.stage,
            self@.well_formed(),
    {
        proof {
            use_type_invariant(self);
        }
        self.progress.stage
    }

    /// The context to destroy: the created one once the setup has failed,
    /// `None` otherwise (see `to_destroy`).
    pub fn context_to_destroy(&self) -> (raw: Option<usize>)
        ensures
            raw == to_destroy(self@),
    {
        if self.progress.stage == SetupStage::Failed && self.progress.raw != 0 {
            Some(self.progress.raw)
        } else {
            None
        }
    }

    /// Whether the setup takes `event` as the answer to its last action.
    pub fn accepts(&self, event: &SetupEvent) -> (b: bool)
        ensures
            b == accepts(self@, *event),
            self@.well_formed(),
    {
        proof {
            use_type_invariant(self);
        }
        match self.progress.stage {
            SetupStage::Creating => matches!(event, SetupEvent::Created { .. }),
            SetupStage::Running => match &self.steps[self.progress.next] {
                SetupStep::SetOption { .. } => matches!(event, SetupEvent::OptionApplied(_)),
                SetupStep::Initialize => matches!(event, SetupEvent::Initialized { .. }),
            },
            _ => false,
        }
    }

    /// The progress at the step at `i`, or at success when every step is
    /// done, with what it asks for.
    fn progress_at(&self, i: usize, raw: usize) -> (result: (Progress, SetupAction))
        requires
            i <= self.steps.len(),
            raw != 0,
        ensures
            ({
                let v = SetupView {
                    steps: self@.steps,
                    stage: result.0.stage,
                    next: result.0.next as nat,
                    raw: result.0.raw,
                };
                &&& v == proceed(SetupView { raw, ..self@ }, i as nat)
                &&& issues(v, result.1)
            }),
    {
        if i >= self.steps.len() {
            (
                Progress { stage: SetupStage::Succeeded, next: i, raw },
                SetupAction::Finish(Ok(MpvHandle { raw })),
            )
        } else {
            let action = match &self.steps[i] {
                SetupStep::SetOption { name, value, .. } => SetupAction::SetOption {
                    name: name.clone(),
                    value: value.clone(),
                },
                SetupStep::Initialize => SetupAction::Initialize,
            };
            (Progress { stage: SetupStage::Running, next: i, raw }, action)
        }
    }

    /// Takes the answer to the last action and says what to do next.
    pub fn advance(&mut self, event: SetupEvent) -> (action: SetupAction)
        requires
            accepts(old(self)@, event),
        ensures
            final(self)@ == after(old(self)@, event),
            final(self)@.well_formed(),
            action_fits(final(self)@, event, action),
    {
        proof {
            use_type_invariant(&*self);
        }
        assert(self@.steps.len() == self.steps@.len());
        let p = self.progress;
        match event {
            SetupEvent::Created { raw } => {
                if raw == 0 {
                    self.progress = Progress { stage: SetupStage::Failed, ..p };
                    SetupAction::Finish(Err(MpvError::AllocationFailed))
                } else {
                    let (q, action) = self.progress_at(0, raw);
                    self.progress = q;
                    action
                }
            },
            SetupEvent::OptionApplied(reply) => {
                assert(p.next < self.steps.len());
                let required = match &self.steps[p.next] {
                    SetupStep::SetOption { required, .. } => *required,
                    SetupStep::Initialize => true,
                };
                let outcome = match reply {
                    OptionReply::Status { code, text } => MpvError::from_code(code, text),
                    OptionReply::InvalidArgument(m) => Err(MpvError::InvalidCString(m)),
                };
                match outcome {
                    Err(e) => {
                        if required {
                            self.progress = Progress { stage: SetupStage::Failed, ..p };
                            return SetupAction::Finish(Err(e));
                        }
                    },
                    Ok(()) => {},
                }
                let (q, action) = self.progress_at(p.next + 1, p.raw);
                self.progress = q;
                action
            },
            SetupEvent::Initialized { status } => {
                assert(p.next < self.steps.len());
                if status < 0 {
                    let mut message = String::from_str("mpv_initialize failed with status ");
                    append_signed_decimal(&mut message, status as i64);
                    self.progress = Progress { stage: SetupStage::Failed, ..p };
                    SetupAction::Finish(Err(MpvError::InitializationFailed(message)))
                } else {
                    let (q, action) = self.progress_at(p.next + 1, p.raw);
                    self.progress = q;
                    action
                }
            },
        }
    }
}

proof fn lemma_passing_prefix(w: SetupView, replies: Seq<SetupEvent>, i: nat, k: nat)
    requires
        w.steps.len() == replies.len(),
        i <= k <= replies.len(),
        w.raw != 0,
        w == proceed(w, i),
        forall|j: int| 0 <= j < replies.len() ==> lets_pass(w.steps[j], #[trigger] replies[j]),
    ensures
        run(w, replies.subrange(i as int, k as int)) == proceed(w, k),
    decreases k - i,
{
    if i < k {
        let next = after(w, replies[i as int]);
        assert(lets_pass(w.steps[i as int], replies[i as int]));
        assert(next == proceed(w, i + 1));
        assert(replies.subrange(i as int, k as int).drop_first() =~= replies.subrange(
            (i + 1) as int,
            k as int,
        ));
        lemma_passing_prefix(next, replies, i + 1, k);
    } else {
        assert(replies.subrange(i as int, k as int) =~= Seq::<SetupEvent>::empty());
    }
}

/// The state of a setup in state `v` after the creation of its context at
/// `raw` and the first `k` of `replies`.
pub open spec fn state_after_replies(v: SetupView, raw: usize, replies: Seq<SetupEvent>, k: int) -> SetupView {
    run(v, seq![SetupEvent::Created { raw }] + replies.take(k))
}

/// When the context is created at a non-null address and every reply lets
/// its step pass, the setup takes each reply in turn as the answer to the
/// step under way, in the order of the steps, and ends with a ready handle at
/// the created address.
pub proof fn lemma_setup_succeeds(v: SetupView, raw: usize, replies: Seq<SetupEvent>)
    requires
        v.stage == SetupStage::Creating,
        raw != 0,
        replies.len() == v.steps.len(),
        forall|j: int| 0 <= j < replies.len() ==> lets_pass(v.steps[j], #[trigger] replies[j]),
    ensures
        forall|k: int|
            0 <= k < replies.len() ==> #[trigger] state_after_replies(v, raw, replies, k).stage
                == SetupStage::Running && state_after_replies(v, raw, replies, k).next == k
                && accepts(state_after_replies(v, raw, replies, k), replies[k]),
        state_after_replies(v, raw, replies, replies.len() as int) == (SetupView {
            steps: v.steps,
            stage: SetupStage::Succeeded,
            next: v.steps.len(),
            raw,
        }),
{
    let w = after(v, SetupEvent::Created { raw });
    assert(w == proceed(w, 0));
    assert forall|k: int| 0 <= k <= replies.len() implies #[trigger] state_after_replies(
        v,
        raw,
        replies,
        k,
    ) == proceed(w, k as nat) by {
        let events = seq![SetupEvent::Created { raw }] + replies.take(k);
        assert(events[0] == SetupEvent::Created { raw });
        assert(events.drop_first() =~= replies.subrange(0, k));
        lemma_passing_prefix(w, replies, 0, k as nat);
    }
    assert forall|k: int|
        0 <= k < replies.len() implies #[trigger] state_after_replies(v, raw, replies, k).stage
        == SetupStage::Running && state_after_replies(v, raw, replies, k).next == k && accepts(
        state_after_replies(v, raw, replies, k),
        replies[k],
    ) by {
        assert(state_after_replies(v, raw, replies, k) == proceed(w, k as nat));
        assert(lets_pass(v.steps[k], replies[k]));
    }
    assert(state_after_replies(v, raw, replies, replies.len() as int) == proceed(
        w,
        replies.len(),
    ));
}

/// A failing reply to a required step ends the setup: it fails, and no
/// further answer is taken.
pub proof fn lemma_required_failure_ends(v: SetupView, event: SetupEvent, later: SetupEvent)
    requires
        v.well_formed(),
        accepts(v, event),
        v.stage == SetupStage::Running,
        step_required(v.steps[v.next as int]),
        match event {
            SetupEvent::OptionApplied(r) => reply_fails(r),
            SetupEvent::Initialized { status } => status < 0,
            SetupEvent::Created { .. } => false,
        },
    ensures
        after(v, event).stage == SetupStage::Failed,
        !accepts(after(v, event), later),
{
}

/// The answer to an optional option never changes the course of the setup:
/// any two replies to it lead to the same state.
pub proof fn lemma_optional_reply_ignored(v: SetupView, first: OptionReply, second: OptionReply)
    requires
        v.well_formed(),
        v.stage == SetupStage::Running,
        !step_required(v.steps[v.next as int]),
    ensures
        after(v, SetupEvent::OptionApplied(first)) == after(v, SetupEvent::OptionApplied(second)),
{
}

/// A context that mpv could not allocate ends the setup at once with
/// `AllocationFailed`, before any step runs.
pub proof fn lemma_allocation_failure_ends(v: SetupView)
    requires
        v.stage == SetupStage::Creating,
    ensures
        after(v, SetupEvent::Created { raw: 0 }).stage == SetupStage::Failed,
        after(v, SetupEvent::Created { raw: 0 }).next == v.next,
        failure_of(SetupEvent::Created { raw: 0 }, MpvError::AllocationFailed),
{
}

/// A failure after the context was created leaves exactly that context to be
/// destroyed; a failed allocation leaves none.
pub proof fn lemma_failure_keeps_context(v: SetupView, event: SetupEvent)
    requires
        v.well_formed(),
        accepts(v, event),
        after(v, event).stage == SetupStage::Failed,
    ensures
        v.stage == SetupStage::Creating ==> to_destroy(after(v, event)) is None,
        v.stage == SetupStage::Running ==> to_destroy(after(v, event)) == Some(v.raw),
{
}

/// The created context has one owner at the end of a setup: on success the
/// handle, which holds its address, and nothing is left to destroy; on
/// failure after creation, the context is left to be destroyed.
pub proof fn lemma_context_owned_once(v: SetupView, event: SetupEvent, action: SetupAction)
    requires
        v.well_formed(),
        action_fits(v, event, action),
        v.stage == SetupStage::Succeeded || v.stage == SetupStage::Failed,
    ensures
        v.stage == SetupStage::Succeeded ==> to_destroy(v) is None,
        v.stage == SetupStage::Succeeded ==> (action matches SetupAction::Finish(Ok(h)) && h@
            == v.raw),
        v.stage == SetupStage::Failed ==> (action matches SetupAction::Finish(Err(_))),
        v.stage == SetupStage::Failed && v.raw != 0 ==> to_destroy(v) == Some(v.raw),
{
}

/// A setup takes every answer of the kind it asked for: any address after it
/// asked to create the context, any reply, failing or not, to an option, and
/// any status of initialization. Failures are therefore reported through
/// `advance`, never refused.
pub proof fn lemma_setup_takes_every_answer(v: SetupView, reply: OptionReply, status: i32, raw: usize)
    requires
        v.well_formed(),
    ensures
        v.stage == SetupStage::Creating ==> accepts(v, SetupEvent::Created { raw }),
        v.stage == SetupStage::Running && v.steps[v.next as int] is SetOption ==> accepts(
            v,
            SetupEvent::OptionApplied(reply),
        ),
        v.stage == SetupStage::Running && v.steps[v.next as int] is Initialize ==> accepts(
            v,
            SetupEvent::Initialized { status },
        ),
{
}

} // verus!
