//! The device worker's decision logic: one execution context owns the camera
//! exclusively, drains work orders in arrival order, and interleaves throttled
//! preview capture when idle in live view.
//!
//! The loop itself (thread, blocking receives, the native camera calls, the
//! pause between preview attempts) runs outside; everything it decides is
//! here, as total functions from state and event to next state and step.

use vstd::prelude::*;

use crate::error::{AppError, ConfigError, WorkerError};
use crate::messages::{
    CameraDescriptor, CameraInfo, DeviceOutcome, DeviceRequest, MessageFromThread,
    MessageToThread, RecvEvent, WriteCommand, WriteValue,
};
use crate::preview::{decode_image, jpeg_decode};
use crate::settings::{
    parse_spec, raw_view, setting_view, CameraSettings, RadioChoice, SettingView, StaticWidget,
};

verus! {

/// The worker's own state: which camera is open (standing for the exclusively
/// owned native handle), whether preview polling is on, and the writes still
/// owed by the running configuration batch.
pub struct CameraThreadState {
    pub camera: Option<CameraDescriptor>,
    pub capturing_live_view: bool,
    pub pending_writes: Vec<WriteCommand>,
}

/// Mathematical image of [`CameraThreadState`].
#[verifier::ext_equal]
pub struct WorkerView {
    pub camera: Option<CameraDescriptor>,
    pub capturing_live_view: bool,
    pub pending_writes: Seq<WriteCommand>,
}

impl View for CameraThreadState {
    type V = WorkerView;

    open spec fn view(&self) -> WorkerView {
        WorkerView {
            camera: self.camera,
            capturing_live_view: self.capturing_live_view,
            pending_writes: self.pending_writes@,
        }
    }
}

/// Why the worker loop ended. Nothing else ends it.
#[derive(Debug, Clone, Copy, PartialEq, Eq, Structural)]
pub enum StopReason {
    /// An explicit terminal order.
    Shutdown,
    /// The frontend's sender is gone; the fatal condition.
    ChannelClosed,
}

/// What the loop must do next.
#[derive(Debug)]
pub enum LoopStep {
    /// Nothing; receive again.
    Continue,
    /// Send this completion to the frontend, then receive again.
    Reply(MessageFromThread),
    /// Perform this device call and hand the outcome to [`CameraThreadState::on_device`].
    Call(DeviceRequest),
    /// Leave the loop.
    Stop(StopReason),
}

/// Mathematical image of an error, forgetting only the text the image
/// decoder chose for its message.
pub enum ErrView {
    GPhoto(Seq<char>),
    Unknown(Seq<char>),
    Io(Seq<char>),
    Thread(Seq<char>),
    Image,
    Config(ConfigError),
    Worker(WorkerError),
}

/// The mathematical image of an error.
pub open spec fn err_view(e: AppError) -> ErrView {
    match e {
        AppError::GPhotoError(s) => ErrView::GPhoto(s@),
        AppError::Unknown(s) => ErrView::Unknown(s@),
        AppError::IoError(s) => ErrView::Io(s@),
        AppError::ThreadError(s) => ErrView::Thread(s@),
        AppError::ImageError(_) => ErrView::Image,
        AppError::Config(c) => ErrView::Config(c),
        AppError::Worker(w) => ErrView::Worker(w),
    }
}

/// Mathematical image of a completion.
pub enum MsgView {
    Preview(nat, nat, Seq<u8>),
    Cameras(Seq<CameraDescriptor>),
    Open(Option<CameraInfo>),
    Config(SettingView),
    Applied,
    LiveViewStopped,
    Error(ErrView),
}

/// The mathematical image of a completion.
pub open spec fn msg_view(m: MessageFromThread) -> MsgView {
    match m {
        MessageFromThread::PreviewCapture(img) => MsgView::Preview(
            img.width as nat,
            img.height as nat,
            img.rgba@,
        ),
        MessageFromThread::CameraList(l) => MsgView::Cameras(l@),
        MessageFromThread::CameraOpen(o) => MsgView::Open(o),
        MessageFromThread::CameraConfig(c) => MsgView::Config(setting_view(c)),
        MessageFromThread::ConfigApplied => MsgView::Applied,
        MessageFromThread::LiveViewStopped => MsgView::LiveViewStopped,
        MessageFromThread::Error(e) => MsgView::Error(err_view(e)),
    }
}

/// Mathematical image of a loop step.
pub enum StepView {
    Continue,
    Reply(MsgView),
    Call(DeviceRequest),
    Stop(StopReason),
}

/// The mathematical image of a loop step.
pub open spec fn step_view(s: LoopStep) -> StepView {
    match s {
        LoopStep::Continue => StepView::Continue,
        LoopStep::Reply(m) => StepView::Reply(msg_view(m)),
        LoopStep::Call(r) => StepView::Call(r),
        LoopStep::Stop(r) => StepView::Stop(r),
    }
}

// ------------------------------------------------------------------
// Turning edited nodes into device writes
// ------------------------------------------------------------------

/// The device write for one edited node: its name and the written value.
/// `None` for a node that cannot be written back: a group, or an indexed
/// radio selection pointing outside its choices.
pub open spec fn write_command_spec(c: CameraSettings) -> Option<WriteCommand> {
    match c.widget {
        StaticWidget::Group { .. } => None,
        StaticWidget::Text(t) => Some(WriteCommand { name: c.name, value: WriteValue::Text(t) }),
        StaticWidget::Range { value, .. } => Some(
            WriteCommand { name: c.name, value: WriteValue::Range(value) },
        ),
        StaticWidget::Toggle { value, .. } => Some(
            WriteCommand { name: c.name, value: WriteValue::Toggle(value) },
        ),
        StaticWidget::Radio { choices, choice } => match choice {
            RadioChoice::Indexed(i) => if i < choices@.len() {
                Some(WriteCommand { name: c.name, value: WriteValue::Choice(choices@[i as int]) })
            } else {
                None
            },
            RadioChoice::Other(s) => Some(
                WriteCommand { name: c.name, value: WriteValue::Choice(s) },
            ),
        },
        StaticWidget::Date { timestamp } => Some(
            WriteCommand { name: c.name, value: WriteValue::Date(timestamp) },
        ),
        StaticWidget::Button => Some(WriteCommand { name: c.name, value: WriteValue::Press }),
    }
}

/// The writes of a whole batch, in batch order; `None` as soon as any entry
/// cannot be written (the batch is refused whole, before any device call).
pub open spec fn write_commands_spec(batch: Seq<(i32, CameraSettings)>) -> Option<
    Seq<WriteCommand>,
>
    decreases batch,
{
    if batch.len() == 0 {
        Some(Seq::empty())
    } else {
        match write_commands_spec(batch.drop_last()) {
            None => None,
            Some(cs) => match write_command_spec(batch.last().1) {
                None => None,
                Some(c) => Some(cs.push(c)),
            },
        }
    }
}

/// One step of [`write_commands_spec`], spelled out on a `push`.
pub proof fn lemma_write_commands_step(s: Seq<(i32, CameraSettings)>, x: (i32, CameraSettings))
    ensures
        write_commands_spec(s.push(x)) == match write_commands_spec(s) {
            None => None,
            Some(cs) => match write_command_spec(x.1) {
                None => None,
                Some(c) => Some(cs.push(c)),
            },
        },
{
    assert(s.push(x).drop_last() =~= s);
    assert(s.push(x).last() == x);
}

/// Exec twin of [`write_command_spec`].
fn write_command(c: &CameraSettings) -> (r: Option<WriteCommand>)
    ensures
        r == write_command_spec(*c),
{
    let name = c.name.clone();
    match &c.widget {
        StaticWidget::Group { .. } => None,
        StaticWidget::Text(t) => Some(WriteCommand { name, value: WriteValue::Text(t.clone()) }),
        StaticWidget::Range { value, .. } => Some(
            WriteCommand { name, value: WriteValue::Range(*value) },
        ),
        StaticWidget::Toggle { value, .. } => Some(
            WriteCommand { name, value: WriteValue::Toggle(*value) },
        ),
        StaticWidget::Radio { choices, choice } => match choice {
            RadioChoice::Indexed(i) => if *i < choices.len() {
                Some(WriteCommand { name, value: WriteValue::Choice(choices[*i].clone()) })
            } else {
                None
            },
            RadioChoice::Other(s) => Some(
                WriteCommand { name, value: WriteValue::Choice(s.clone()) },
            ),
        },
        StaticWidget::Date { timestamp } => Some(
            WriteCommand { name, value: WriteValue::Date(*timestamp) },
        ),
        StaticWidget::Button => Some(WriteCommand { name, value: WriteValue::Press }),
    }
}

/// Exec twin of [`write_commands_spec`].
fn write_commands(batch: &Vec<(i32, CameraSettings)>) -> (r: Option<Vec<WriteCommand>>)
    ensures
        match r {
            Some(v) => write_commands_spec(batch@) == Some(v@),
            None => write_commands_spec(batch@) is None,
        },
{
    let mut out: Vec<WriteCommand> = Vec::new();
    let mut i: usize = 0;
    while i < batch.len()
        invariant
            0 <= i <= batch@.len(),
            write_commands_spec(batch@.take(i as int)) == Some(out@),
        decreases batch@.len() - i,
    {
        proof {
            lemma_write_commands_step(batch@.take(i as int), batch@[i as int]);
            assert(batch@.take(i as int + 1) =~= batch@.take(i as int).push(batch@[i as int]));
        }
        match write_command(&batch[i].1) {
            Some(c) => out.push(c),
            None => {
                proof {
                    lemma_write_commands_none_prefix(batch@, i as int + 1);
                }
                return None;
            },
        }
        i += 1;
    }
    proof {
        assert(batch@.take(batch@.len() as int) =~= batch@);
    }
    Some(out)
}

/// A refused prefix refuses the whole batch.
pub proof fn lemma_write_commands_none_prefix(s: Seq<(i32, CameraSettings)>, k: int)
    requires
        0 <= k <= s.len(),
        write_commands_spec(s.take(k)) is None,
    ensures
        write_commands_spec(s) is None,
    decreases s.len(),
{
    if k == s.len() {
        assert(s.take(k) =~= s);
    } else {
        assert(s.drop_last().take(k) =~= s.take(k));
        lemma_write_commands_none_prefix(s.drop_last(), k);
    }
}

// ------------------------------------------------------------------
// The two decision functions of the loop
// ------------------------------------------------------------------

/// The successor state and step for one receive event.
pub open spec fn on_receive_spec(s: WorkerView, ev: RecvEvent) -> (WorkerView, StepView) {
    match ev {
        RecvEvent::Disconnected => (s, StepView::Stop(StopReason::ChannelClosed)),
        RecvEvent::Empty => if s.capturing_live_view {
            if s.camera is Some {
                (s, StepView::Call(DeviceRequest::CapturePreviewFrame))
            } else {
                (
                    WorkerView { capturing_live_view: false, ..s },
                    StepView::Reply(MsgView::LiveViewStopped),
                )
            }
        } else {
            (s, StepView::Continue)
        },
        RecvEvent::Order(order) => match order {
            MessageToThread::Break => (s, StepView::Stop(StopReason::Shutdown)),
            MessageToThread::SetLiveView(lv) => (
                WorkerView { capturing_live_view: lv, ..s },
                StepView::Continue,
            ),
            MessageToThread::ListCameras => (s, StepView::Call(DeviceRequest::ListCameras)),
            MessageToThread::UseCamera(d) => (s, StepView::Call(DeviceRequest::OpenCamera(d))),
            MessageToThread::CloseCamera => (
                WorkerView { camera: None, ..s },
                StepView::Reply(MsgView::Open(None)),
            ),
            MessageToThread::GetConfig => if s.camera is Some {
                (s, StepView::Call(DeviceRequest::ReadConfig))
            } else {
                (
                    s,
                    StepView::Reply(MsgView::Error(ErrView::Worker(WorkerError::NoCamera))),
                )
            },
            MessageToThread::ApplyConfig(batch) => if s.camera is None {
                (s, StepView::Reply(MsgView::Applied))
            } else {
                match write_commands_spec(batch@) {
                    None => (
                        s,
                        StepView::Reply(
                            MsgView::Error(ErrView::Worker(WorkerError::Unwritable)),
                        ),
                    ),
                    Some(cs) => if cs.len() == 0 {
                        (s, StepView::Reply(MsgView::Applied))
                    } else {
                        (
                            WorkerView { pending_writes: cs.subrange(1, cs.len() as int), ..s },
                            StepView::Call(DeviceRequest::WriteNode(cs[0])),
                        )
                    },
                }
            },
        },
    }
}

/// The successor state and step for one device outcome.
pub open spec fn on_device_spec(s: WorkerView, o: DeviceOutcome) -> (WorkerView, StepView) {
    match o {
        DeviceOutcome::Cameras(res) => (
            s,
            StepView::Reply(
                match res {
                    Ok(l) => MsgView::Cameras(l@),
                    Err(e) => MsgView::Error(err_view(e)),
                },
            ),
        ),
        DeviceOutcome::Opened(d, res) => match res {
            Ok(info) => (
                WorkerView { camera: Some(d), ..s },
                StepView::Reply(MsgView::Open(Some(info))),
            ),
            Err(e) => (s, StepView::Reply(MsgView::Error(err_view(e)))),
        },
        DeviceOutcome::Config(res) => (
            s,
            StepView::Reply(
                match res {
                    Ok(raw) => match parse_spec(raw_view(raw)) {
                        Ok(sv) => MsgView::Config(sv),
                        Err(ce) => MsgView::Error(ErrView::Config(ce)),
                    },
                    Err(e) => MsgView::Error(err_view(e)),
                },
            ),
        ),
        DeviceOutcome::Written(res) => match res {
            Ok(u) => if s.pending_writes.len() == 0 {
                (s, StepView::Reply(MsgView::Applied))
            } else {
                (
                    WorkerView {
                        pending_writes: s.pending_writes.subrange(
                            1,
                            s.pending_writes.len() as int,
                        ),
                        ..s
                    },
                    StepView::Call(DeviceRequest::WriteNode(s.pending_writes[0])),
                )
            },
            Err(e) => (
                WorkerView { pending_writes: Seq::empty(), ..s },
                StepView::Reply(MsgView::Error(err_view(e))),
            ),
        },
        DeviceOutcome::Preview(res) => (
            s,
            StepView::Reply(
                match res {
                    Ok(bytes) => match jpeg_decode(bytes@) {
                        Some(t) => MsgView::Preview(t.0, t.1, t.2),
                        None => MsgView::Error(ErrView::Image),
                    },
                    Err(e) => MsgView::Error(err_view(e)),
                },
            ),
        ),
    }
}

// ------------------------------------------------------------------
// The loop itself, as a mathematical fold over its inputs
// ------------------------------------------------------------------

/// What a worker run produces: the emitted completions in order, the device
/// calls made in order, the final worker state, how the loop stopped, if it
/// did, and the unconsumed remainder of the outcome script.
pub struct RunResult {
    pub msgs: Seq<MsgView>,
    pub calls: Seq<DeviceRequest>,
    pub state: WorkerView,
    pub stop: Option<StopReason>,
    pub rest: Seq<DeviceOutcome>,
}

/// One device call chain run to its completion: the messages it emits, the
/// further calls it makes, the state it leaves, and the unconsumed rest of
/// the outcome script. A chain longer than the script simply ends with it.
pub open spec fn run_device_spec(s: WorkerView, script: Seq<DeviceOutcome>) -> (
    Seq<MsgView>,
    Seq<DeviceRequest>,
    WorkerView,
    Seq<DeviceOutcome>,
)
    decreases script.len(),
{
    if script.len() == 0 {
        (Seq::empty(), Seq::empty(), s, script)
    } else {
        let (s2, step) = on_device_spec(s, script[0]);
        let rest = script.subrange(1, script.len() as int);
        match step {
            StepView::Reply(m) => (seq![m], Seq::empty(), s2, rest),
            StepView::Call(q) => {
                let (ms, qs, s3, left) = run_device_spec(s2, rest);
                (ms, seq![q] + qs, s3, left)
            },
            StepView::Continue => (Seq::empty(), Seq::empty(), s2, rest),
            StepView::Stop(r) => (Seq::empty(), Seq::empty(), s2, rest),
        }
    }
}

/// The worker loop over a finite sequence of receive events, the device
/// outcomes supplied by a script. Orders run strictly one after the other;
/// every completion of an order stands in the output before any completion
/// of a later order, which is the loop's ordering guarantee.
pub open spec fn run_spec(
    s: WorkerView,
    events: Seq<RecvEvent>,
    script: Seq<DeviceOutcome>,
) -> RunResult
    decreases events.len(),
{
    if events.len() == 0 {
        RunResult { msgs: Seq::empty(), calls: Seq::empty(), state: s, stop: None, rest: script }
    } else {
        let (s2, step) = on_receive_spec(s, events[0]);
        let evrest = events.subrange(1, events.len() as int);
        match step {
            StepView::Continue => run_spec(s2, evrest, script),
            StepView::Stop(r) => RunResult {
                msgs: Seq::empty(),
                calls: Seq::empty(),
                state: s2,
                stop: Some(r),
                rest: script,
            },
            StepView::Reply(m) => {
                let r = run_spec(s2, evrest, script);
                RunResult {
                    msgs: seq![m] + r.msgs,
                    calls: r.calls,
                    state: r.state,
                    stop: r.stop,
                    rest: r.rest,
                }
            },
            StepView::Call(q) => {
                let (ms, qs, s3, script2) = run_device_spec(s2, script);
                let r = run_spec(s3, evrest, script2);
                RunResult {
                    msgs: ms + r.msgs,
                    calls: seq![q] + qs + r.calls,
                    state: r.state,
                    stop: r.stop,
                    rest: r.rest,
                }
            },
        }
    }
}

// ------------------------------------------------------------------
// Laws of the loop
// ------------------------------------------------------------------

/// Orders run strictly one after another: while no stop occurred, a run over
/// one stretch of events followed by another emits the first stretch's
/// completions, all of them, and then the second's, taken up from the state
/// and the script position the first stretch left. Every completion of an
/// earlier order therefore stands before every completion of a later one.
pub proof fn lemma_run_sequential(
    s: WorkerView,
    events1: Seq<RecvEvent>,
    events2: Seq<RecvEvent>,
    script: Seq<DeviceOutcome>,
)
    requires
        run_spec(s, events1, script).stop is None,
    ensures
        ({
            let r1 = run_spec(s, events1, script);
            let r2 = run_spec(r1.state, events2, r1.rest);
            let r = run_spec(s, events1 + events2, script);
            &&& r.msgs == r1.msgs + r2.msgs
            &&& r.calls == r1.calls + r2.calls
            &&& r.state == r2.state
            &&& r.stop == r2.stop
            &&& r.rest == r2.rest
        }),
    decreases events1.len(),
{
    let r1 = run_spec(s, events1, script);
    let r2 = run_spec(r1.state, events2, r1.rest);
    if events1.len() == 0 {
        assert(events1 + events2 =~= events2);
        assert(r1.msgs + r2.msgs =~= r2.msgs);
        assert(r1.calls + r2.calls =~= r2.calls);
    } else {
        let whole = events1 + events2;
        assert(whole[0] == events1[0]);
        let evrest1 = events1.subrange(1, events1.len() as int);
        assert(whole.subrange(1, whole.len() as int) =~= evrest1 + events2);
        let (s2, step) = on_receive_spec(s, events1[0]);
        match step {
            StepView::Continue => {
                lemma_run_sequential(s2, evrest1, events2, script);
            },
            StepView::Stop(reason) => {
                assert(false);
            },
            StepView::Reply(m) => {
                lemma_run_sequential(s2, evrest1, events2, script);
                let t1 = run_spec(s2, evrest1, script);
                let t2 = run_spec(t1.state, events2, t1.rest);
                assert(seq![m] + (t1.msgs + t2.msgs) =~= (seq![m] + t1.msgs) + t2.msgs);
            },
            StepView::Call(q) => {
                let (ms, qs, s3, script2) = run_device_spec(s2, script);
                lemma_run_sequential(s3, evrest1, events2, script2);
                let t1 = run_spec(s3, evrest1, script2);
                let t2 = run_spec(t1.state, events2, t1.rest);
                assert(ms + (t1.msgs + t2.msgs) =~= (ms + t1.msgs) + t2.msgs);
                assert(seq![q] + qs + (t1.calls + t2.calls) =~= (seq![q] + qs + t1.calls)
                    + t2.calls);
            },
        }
    }
}

/// A run of successful write outcomes drives the pending batch to its end:
/// one write call per pending command, in order, then the single completion
/// that releases editing.
pub proof fn lemma_write_chain(s: WorkerView, script: Seq<DeviceOutcome>)
    requires
        script.len() > s.pending_writes.len(),
        forall|i: int|
            0 <= i <= s.pending_writes.len() ==> script[i] == DeviceOutcome::Written(Ok(())),
    ensures
        ({
            let (ms, qs, s2, left) = run_device_spec(s, script);
            &&& ms =~= seq![MsgView::Applied]
            &&& qs =~= Seq::new(
                s.pending_writes.len(),
                |i: int| DeviceRequest::WriteNode(s.pending_writes[i]),
            )
            &&& s2 == (WorkerView { pending_writes: Seq::empty(), ..s })
            &&& left == script.subrange(
                s.pending_writes.len() as int + 1,
                script.len() as int,
            )
        }),
    decreases s.pending_writes.len(),
{
    let (ms, qs, s2, left) = run_device_spec(s, script);
    let rest = script.subrange(1, script.len() as int);
    if s.pending_writes.len() == 0 {
        assert(s2 =~~= (WorkerView { pending_writes: Seq::empty(), ..s }));
    } else {
        let snext = WorkerView {
            pending_writes: s.pending_writes.subrange(1, s.pending_writes.len() as int),
            ..s
        };
        assert(forall|i: int|
            0 <= i <= snext.pending_writes.len() ==> rest[i] == script[i + 1]);
        lemma_write_chain(snext, rest);
        let (ms2, qs2, s3, left2) = run_device_spec(snext, rest);
        assert(qs =~= seq![DeviceRequest::WriteNode(s.pending_writes[0])] + qs2);
        assert(qs =~= Seq::new(
            s.pending_writes.len(),
            |i: int| DeviceRequest::WriteNode(s.pending_writes[i]),
        ));
        assert(left2 =~= script.subrange(s.pending_writes.len() as int + 1, script.len() as int));
    }
}

/// An accepted configuration batch, against a device that takes every write,
/// issues exactly one write per batch entry, in batch order, and exactly one
/// completion, the one that releases editing. Together with the pending-edit
/// laws: one edited node, however often re-edited, is written exactly once,
/// with its latest value.
pub proof fn lemma_apply_writes_each_entry_once(
    s: WorkerView,
    batch: Vec<(i32, CameraSettings)>,
    script: Seq<DeviceOutcome>,
)
    requires
        s.camera is Some,
        write_commands_spec(batch@) matches Some(cs) && cs.len() > 0,
        script.len() >= write_commands_spec(batch@)->Some_0.len(),
        forall|i: int|
            0 <= i < write_commands_spec(batch@)->Some_0.len() ==> script[i]
                == DeviceOutcome::Written(Ok(())),
    ensures
        ({
            let cs = write_commands_spec(batch@)->Some_0;
            let events = seq![RecvEvent::Order(MessageToThread::ApplyConfig(batch))];
            let r = run_spec(s, events, script);
            &&& r.msgs =~= seq![MsgView::Applied]
            &&& r.calls.len() == cs.len()
            &&& (forall|i: int|
                0 <= i < cs.len() ==> r.calls[i] == DeviceRequest::WriteNode(cs[i]))
            &&& r.stop is None
            &&& r.state == (WorkerView { pending_writes: Seq::empty(), ..s })
        }),
{
    let cs = write_commands_spec(batch@)->Some_0;
    let events = seq![RecvEvent::Order(MessageToThread::ApplyConfig(batch))];
    let evrest = events.subrange(1, 1);
    assert(evrest.len() == 0);
    let (s2, step) = on_receive_spec(s, events[0]);
    assert(s2.pending_writes == cs.subrange(1, cs.len() as int));
    assert(step == StepView::Call(DeviceRequest::WriteNode(cs[0])));
    assert(script.len() > s2.pending_writes.len());
    assert(forall|i: int|
        0 <= i <= s2.pending_writes.len() ==> script[i] == DeviceOutcome::Written(Ok(())));
    lemma_write_chain(s2, script);
    let (ms, qs, s3, left) = run_device_spec(s2, script);
    let r = run_spec(s, events, script);
    assert(r.msgs =~= ms + run_spec(s3, evrest, left).msgs);
    assert(r.msgs =~= seq![MsgView::Applied]);
    assert(r.calls =~= seq![DeviceRequest::WriteNode(cs[0])] + qs);
    assert forall|i: int| 0 <= i < cs.len() implies r.calls[i] == DeviceRequest::WriteNode(
        cs[i],
    ) by {
        if i > 0 {
            assert(qs[i - 1] == DeviceRequest::WriteNode(s2.pending_writes[i - 1]));
            assert(s2.pending_writes[i - 1] == cs[i]);
        }
    }
    assert(r.state =~~= (WorkerView { pending_writes: Seq::empty(), ..s }));
}

/// The completion owed to one discovery outcome.
pub open spec fn cameras_reply(o: DeviceOutcome) -> MsgView {
    match o {
        DeviceOutcome::Cameras(res) => match res {
            Ok(l) => MsgView::Cameras(l@),
            Err(e) => MsgView::Error(err_view(e)),
        },
        _ => MsgView::Applied,
    }
}

/// Completions keep submission order: any number of discovery orders, each
/// answered by the script, yields exactly one completion per order, and the
/// completion at every position carries that same position's answer.
pub proof fn lemma_completions_keep_order(
    s: WorkerView,
    events: Seq<RecvEvent>,
    script: Seq<DeviceOutcome>,
)
    requires
        events.len() == script.len(),
        forall|i: int|
            0 <= i < events.len() ==> events[i] == RecvEvent::Order(MessageToThread::ListCameras),
        forall|i: int| 0 <= i < script.len() ==> script[i] is Cameras,
    ensures
        ({
            let r = run_spec(s, events, script);
            &&& r.msgs.len() == events.len()
            &&& r.state == s
            &&& r.stop is None
            &&& forall|i: int| 0 <= i < script.len() ==> r.msgs[i] == cameras_reply(script[i])
        }),
    decreases events.len(),
{
    if events.len() > 0 {
        let evrest = events.subrange(1, events.len() as int);
        let screst = script.subrange(1, script.len() as int);
        lemma_completions_keep_order(s, evrest, screst);
        let r = run_spec(s, events, script);
        let rr = run_spec(s, evrest, screst);
        assert(r.msgs == seq![cameras_reply(script[0])] + rr.msgs);
        assert forall|i: int| 0 <= i < script.len() implies r.msgs[i] == cameras_reply(
            script[i],
        ) by {
            if i > 0 {
                assert(rr.msgs[i - 1] == cameras_reply(screst[i - 1]));
                assert(screst[i - 1] == script[i]);
            }
        }
    }
}

/// Enabling live view with no camera open yields, at the next idle poll,
/// exactly one completion clearing the frontend's live-view flag; the
/// worker's own flag falls back to `false`, and the loop does not stop.
pub proof fn lemma_live_view_stops_without_camera(s: WorkerView, script: Seq<DeviceOutcome>)
    requires
        s.camera is None,
    ensures
        ({
            let events = seq![
                RecvEvent::Order(MessageToThread::SetLiveView(true)),
                RecvEvent::Empty,
            ];
            let r = run_spec(s, events, script);
            &&& r.msgs =~= seq![MsgView::LiveViewStopped]
            &&& r.state.capturing_live_view == false
            &&& r.state.camera == s.camera
            &&& r.stop is None
        }),
{
    let events = seq![RecvEvent::Order(MessageToThread::SetLiveView(true)), RecvEvent::Empty];
    let s1 = WorkerView { capturing_live_view: true, ..s };
    let evrest = events.subrange(1, 2);
    assert(evrest =~= seq![RecvEvent::Empty]);
    assert(evrest.subrange(1, 1) =~= Seq::<RecvEvent>::empty());
    let r1 = run_spec(s1, evrest, script);
    assert(r1.msgs == seq![MsgView::LiveViewStopped] + run_spec(
        WorkerView { capturing_live_view: false, ..s1 },
        evrest.subrange(1, 1),
        script,
    ).msgs);
}

/// Dropping the frontend's sender is fatal at the very next receive attempt:
/// nothing further is emitted or consumed, the state is untouched, and the
/// loop reports the closed channel as its stop reason.
pub proof fn lemma_disconnect_is_fatal(
    s: WorkerView,
    events: Seq<RecvEvent>,
    script: Seq<DeviceOutcome>,
)
    requires
        events.len() > 0,
        events[0] is Disconnected,
    ensures
        run_spec(s, events, script) == (RunResult {
            msgs: Seq::empty(),
            calls: Seq::empty(),
            state: s,
            stop: Some(StopReason::ChannelClosed),
            rest: script,
        }),
{
}

impl CameraThreadState {
    /// The worker's initial state: no camera, no live view, no pending batch.
    pub fn new() -> (s: Self)
        ensures
            s@.camera is None,
            !s@.capturing_live_view,
            s@.pending_writes.len() == 0,
    {
        CameraThreadState { camera: None, capturing_live_view: false, pending_writes: Vec::new() }
    }

    /// Whether the next receive must block: it blocks exactly when preview
    /// polling is off. In live view the worker never blocks, trading latency
    /// for responsiveness.
    pub fn blocks_when_idle(&self) -> (r: bool)
        ensures
            r == !self@.capturing_live_view,
    {
        !self.capturing_live_view
    }

    /// Reacts to one receive attempt's result. Disconnection and the terminal
    /// order are the only stops; an order's failure never is one.
    pub fn on_receive(&mut self, ev: RecvEvent) -> (r: LoopStep)
        ensures
            (final(self)@, step_view(r)) == on_receive_spec(old(self)@, ev),
    {
        match ev {
            RecvEvent::Disconnected => LoopStep::Stop(StopReason::ChannelClosed),
            RecvEvent::Empty => {
                if self.capturing_live_view {
                    if self.camera.is_some() {
                        LoopStep::Call(DeviceRequest::CapturePreviewFrame)
                    } else {
                        self.capturing_live_view = false;
                        LoopStep::Reply(MessageFromThread::LiveViewStopped)
                    }
                } else {
                    LoopStep::Continue
                }
            },
            RecvEvent::Order(order) => match order {
                MessageToThread::Break => LoopStep::Stop(StopReason::Shutdown),
                MessageToThread::SetLiveView(lv) => {
                    self.capturing_live_view = lv;
                    LoopStep::Continue
                },
                MessageToThread::ListCameras => LoopStep::Call(DeviceRequest::ListCameras),
                MessageToThread::UseCamera(d) => LoopStep::Call(DeviceRequest::OpenCamera(d)),
                MessageToThread::CloseCamera => {
                    self.camera = None;
                    LoopStep::Reply(MessageFromThread::CameraOpen(None))
                },
                MessageToThread::GetConfig => {
                    if self.camera.is_some() {
                        LoopStep::Call(DeviceRequest::ReadConfig)
                    } else {
                        LoopStep::Reply(
                            MessageFromThread::Error(AppError::Worker(WorkerError::NoCamera)),
                        )
                    }
                },
                MessageToThread::ApplyConfig(batch) => {
                    if self.camera.is_none() {
                        LoopStep::Reply(MessageFromThread::ConfigApplied)
                    } else {
                        match write_commands(&batch) {
                            None => LoopStep::Reply(
                                MessageFromThread::Error(
                                    AppError::Worker(WorkerError::Unwritable),
                                ),
                            ),
                            Some(mut cmds) => {
                                if cmds.len() == 0 {
                                    LoopStep::Reply(MessageFromThread::ConfigApplied)
                                } else {
                                    let ghost cs = cmds@;
                                    let first = cmds.remove(0);
                                    self.pending_writes = cmds;
                                    proof {
                                        assert(self.pending_writes@ =~= cs.subrange(
                                            1,
                                            cs.len() as int,
                                        ));
                                    }
                                    LoopStep::Call(DeviceRequest::WriteNode(first))
                                }
                            },
                        }
                    }
                },
            },
        }
    }

    /// Reacts to one device outcome: turns it into the owed completion, or
    /// into the next write of the running batch. A failed write aborts the
    /// batch's remaining writes; a failed preview leaves live view on.
    pub fn on_device(&mut self, o: DeviceOutcome) -> (r: LoopStep)
        ensures
            (final(self)@, step_view(r)) == on_device_spec(old(self)@, o),
            r matches LoopStep::Reply(MessageFromThread::CameraConfig(c)) ==> c.wf(),
            r matches LoopStep::Reply(MessageFromThread::PreviewCapture(img)) ==> img.wf(),
    {
        match o {
            DeviceOutcome::Cameras(res) => LoopStep::Reply(
                match res {
                    Ok(l) => MessageFromThread::CameraList(l),
                    Err(e) => MessageFromThread::Error(e),
                },
            ),
            DeviceOutcome::Opened(d, res) => match res {
                Ok(info) => {
                    self.camera = Some(d);
                    LoopStep::Reply(MessageFromThread::CameraOpen(Some(info)))
                },
                Err(e) => LoopStep::Reply(MessageFromThread::Error(e)),
            },
            DeviceOutcome::Config(res) => LoopStep::Reply(
                match res {
                    Ok(raw) => match CameraSettings::parse(&raw) {
                        Ok(cfg) => MessageFromThread::CameraConfig(cfg),
                        Err(ce) => MessageFromThread::Error(AppError::Config(ce)),
                    },
                    Err(e) => MessageFromThread::Error(e),
                },
            ),
            DeviceOutcome::Written(res) => match res {
                Ok(_) => {
                    if self.pending_writes.len() == 0 {
                        LoopStep::Reply(MessageFromThread::ConfigApplied)
                    } else {
                        let ghost pw = self.pending_writes@;
                        let next = self.pending_writes.remove(0);
                        proof {
                            assert(self.pending_writes@ =~= pw.subrange(1, pw.len() as int));
                        }
                        LoopStep::Call(DeviceRequest::WriteNode(next))
                    }
                },
                Err(e) => {
                    self.pending_writes = Vec::new();
                    proof {
                        assert(self.pending_writes@ =~= Seq::<WriteCommand>::empty());
                    }
                    LoopStep::Reply(MessageFromThread::Error(e))
                },
            },
            DeviceOutcome::Preview(res) => LoopStep::Reply(
                match res {
                    Ok(bytes) => match decode_image(bytes.as_slice()) {
                        Ok(img) => MessageFromThread::PreviewCapture(img),
                        Err(e) => MessageFromThread::Error(e),
                    },
                    Err(e) => MessageFromThread::Error(e),
                },
            ),
        }
    }
}

} // verus!
