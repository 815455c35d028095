//! The record shared by the host thread and the application thread, and every
//! change that either thread makes to it while holding the shared lock.
//!
//! Windows and input queues are opaque handles, carried as the address that
//! identifies them. The saved-state buffer is held as owned bytes.
use vstd::prelude::*;
use crate::channel::{IoOutcome, ReadStep};
use crate::cmd::{AppCmd, cmd_decode};

verus! {

/// Lifecycle state of the application as seen by both threads.
#[derive(Clone, Copy, PartialEq, Eq, Structural, Debug)]
pub enum State {
    Init,
    Start,
    Resume,
    Pause,
    Stop,
}

impl Default for State {
    /// The implicit starting state, `Init`.
    fn default() -> (r: State)
        ensures
            r == State::Init,
    {
        State::Init
    }
}

/// A rectangle in window coordinates.
#[derive(Clone, Copy, PartialEq, Eq, Structural, Debug)]
pub struct Rect {
    pub left: i32,
    pub top: i32,
    pub right: i32,
    pub bottom: i32,
}

impl Rect {
    /// The rectangle with every edge at zero.
    pub fn empty() -> (r: Rect)
        ensures
            r == (Rect { left: 0, top: 0, right: 0, bottom: 0 }),
    {
        Rect { left: 0, top: 0, right: 0, bottom: 0 }
    }
}

/// The shared record. Every field is read and written under one lock.
///
/// `msg_read` and `msg_write` are the channel's two descriptors, `-1` once
/// closed. A `pending_*` slot is filled only while the host thread waits for
/// the application thread to apply it. `window_cmds_outstanding` and
/// `input_cmds_outstanding` count the window and input-queue commands that
/// the host thread sent and the application thread has not yet applied; the
/// host thread waits until its count is back to zero.
pub struct NativeActivityState {
    pub msg_read: i32,
    pub msg_write: i32,
    pub saved_state: Option<Vec<u8>>,
    pub input_queue: Option<usize>,
    pub window: Option<usize>,
    pub content_rect: Rect,
    pub activity_state: State,
    pub destroy_requested: bool,
    pub running: bool,
    pub state_saved: bool,
    pub destroyed: bool,
    pub redraw_needed: bool,
    pub pending_input_queue: Option<usize>,
    pub pending_window: Option<usize>,
    pub pending_content_rect: Rect,
    pub window_cmds_outstanding: u8,
    pub input_cmds_outstanding: u8,
}

/// The shared record as plain values.
pub struct ActivityModel {
    pub msg_read: i32,
    pub msg_write: i32,
    pub saved_state: Option<Seq<u8>>,
    pub input_queue: Option<usize>,
    pub window: Option<usize>,
    pub content_rect: Rect,
    pub activity_state: State,
    pub destroy_requested: bool,
    pub running: bool,
    pub state_saved: bool,
    pub destroyed: bool,
    pub redraw_needed: bool,
    pub pending_input_queue: Option<usize>,
    pub pending_window: Option<usize>,
    pub pending_content_rect: Rect,
    pub window_cmds_outstanding: u8,
    pub input_cmds_outstanding: u8,
}

impl View for NativeActivityState {
    type V = ActivityModel;

    open spec fn view(&self) -> ActivityModel {
        ActivityModel {
            msg_read: self.msg_read,
            msg_write: self.msg_write,
            saved_state: match self.saved_state {
                Some(b) => Some(b@),
                None => None,
            },
            input_queue: self.input_queue,
            window: self.window,
            content_rect: self.content_rect,
            activity_state: self.activity_state,
            destroy_requested: self.destroy_requested,
            running: self.running,
            state_saved: self.state_saved,
            destroyed: self.destroyed,
            redraw_needed: self.redraw_needed,
            pending_input_queue: self.pending_input_queue,
            pending_window: self.pending_window,
            pending_content_rect: self.pending_content_rect,
            window_cmds_outstanding: self.window_cmds_outstanding,
            input_cmds_outstanding: self.input_cmds_outstanding,
        }
    }
}

impl ActivityModel {
    /// No host-side hand-off is in flight.
    pub open spec fn idle(self) -> bool {
        &&& self.pending_window is None
        &&& self.pending_input_queue is None
        &&& self.window_cmds_outstanding == 0
        &&& self.input_cmds_outstanding == 0
    }
}

/// The saved-state buffer that bytes restored at start-up give: none when
/// nothing was restored.
pub open spec fn restored_state(bytes: Seq<u8>) -> Option<Seq<u8>> {
    if bytes.len() > 0 {
        Some(bytes)
    } else {
        None
    }
}

/// The record after `bytes` were stored as the saved state.
pub open spec fn store_saved_spec(m: ActivityModel, bytes: Seq<u8>) -> ActivityModel {
    ActivityModel { saved_state: Some(bytes), ..m }
}

/// The record when the host thread starts: channel open, nothing attached,
/// lifecycle at `Init`, and the restored bytes as saved state.
pub open spec fn initial_model(msg_read: i32, msg_write: i32, saved: Seq<u8>) -> ActivityModel {
    ActivityModel {
        msg_read,
        msg_write,
        saved_state: restored_state(saved),
        input_queue: None,
        window: None,
        content_rect: Rect { left: 0, top: 0, right: 0, bottom: 0 },
        activity_state: State::Init,
        destroy_requested: false,
        running: false,
        state_saved: false,
        destroyed: false,
        redraw_needed: false,
        pending_input_queue: None,
        pending_window: None,
        pending_content_rect: Rect { left: 0, top: 0, right: 0, bottom: 0 },
        window_cmds_outstanding: 0,
        input_cmds_outstanding: 0,
    }
}

/// What reading `cmd` off the channel does to the record: a `SaveState`
/// discards the stale buffer before the callback fills a fresh one.
pub open spec fn on_read_spec(m: ActivityModel, cmd: AppCmd) -> ActivityModel {
    if cmd == AppCmd::SaveState {
        ActivityModel { saved_state: None, ..m }
    } else {
        m
    }
}

/// The result of one attempt to read a command byte, with the record after it.
pub open spec fn read_step_spec(m: ActivityModel, o: IoOutcome, byte: i8) -> (
    ReadStep<AppCmd>,
    ActivityModel,
) {
    match o {
        IoOutcome::Interrupted => (ReadStep::Retry, m),
        IoOutcome::Transferred(n) => if n == 1 {
            match cmd_decode(byte) {
                Ok(c) => (ReadStep::Done(Some(c)), on_read_spec(m, c)),
                Err(_) => (ReadStep::Done(None), m),
            }
        } else {
            (ReadStep::Done(None), m)
        },
        IoOutcome::Failed => (ReadStep::Done(None), m),
    }
}

/// The lifecycle state that a lifecycle command moves to.
pub open spec fn target_state(cmd: AppCmd) -> Option<State> {
    match cmd {
        AppCmd::Start => Some(State::Start),
        AppCmd::Resume => Some(State::Resume),
        AppCmd::Pause => Some(State::Pause),
        AppCmd::Stop => Some(State::Stop),
        _ => None,
    }
}

/// One command fewer outstanding; a count already at zero stays there.
pub open spec fn one_fewer(n: u8) -> u8 {
    if n > 0 {
        (n - 1) as u8
    } else {
        0
    }
}

/// What the application thread applies before the user callback sees `cmd`.
pub open spec fn pre_exec_spec(m: ActivityModel, cmd: AppCmd) -> ActivityModel {
    match cmd {
        AppCmd::InputQueueChanged => ActivityModel {
            input_queue: m.pending_input_queue,
            input_cmds_outstanding: one_fewer(m.input_cmds_outstanding),
            ..m
        },
        AppCmd::InitWindow => ActivityModel {
            window: m.pending_window,
            window_cmds_outstanding: one_fewer(m.window_cmds_outstanding),
            ..m
        },
        AppCmd::Destroy => ActivityModel { destroy_requested: true, ..m },
        _ => match target_state(cmd) {
            Some(s) => ActivityModel { activity_state: s, ..m },
            None => m,
        },
    }
}

/// What the application thread applies after the user callback saw `cmd`.
pub open spec fn post_exec_spec(m: ActivityModel, cmd: AppCmd) -> ActivityModel {
    match cmd {
        AppCmd::TermWindow => ActivityModel {
            window: None,
            window_cmds_outstanding: one_fewer(m.window_cmds_outstanding),
            ..m
        },
        AppCmd::SaveState => ActivityModel { state_saved: true, ..m },
        AppCmd::Resume => ActivityModel { saved_state: None, ..m },
        _ => m,
    }
}

/// One whole dispatch of a command read off the channel: the read, the
/// pre-apply step and the post-apply step.
pub open spec fn dispatch_spec(m: ActivityModel, cmd: AppCmd) -> ActivityModel {
    post_exec_spec(pre_exec_spec(on_read_spec(m, cmd), cmd), cmd)
}

/// The record after the application thread dispatched `cmds` in order.
pub open spec fn dispatch_all(m: ActivityModel, cmds: Seq<AppCmd>) -> ActivityModel
    decreases cmds.len(),
{
    if cmds.len() == 0 {
        m
    } else {
        dispatch_all(dispatch_spec(m, cmds[0]), cmds.drop_first())
    }
}

/// Side work that the pre-apply step asks of the caller.
#[derive(Clone, Copy, PartialEq, Eq, Structural, Debug)]
pub struct PreAction {
    /// An input queue to detach from the application's looper.
    pub detach_queue: Option<usize>,
    /// An input queue to attach to the application's looper.
    pub attach_queue: Option<usize>,
    /// The pending window became the current one; the caller moves its own
    /// reference on the window object along.
    pub install_window: bool,
    /// Load a fresh configuration snapshot and replace the shared one.
    pub reload_config: bool,
    /// Wake a host thread that waits on the condition variable.
    pub notify: bool,
}

/// Side work that the post-apply step asks of the caller.
#[derive(Clone, Copy, PartialEq, Eq, Structural, Debug)]
pub struct PostAction {
    /// The current window was forgotten; the caller drops its own reference
    /// on the window object.
    pub clear_window: bool,
    /// Wake a host thread that waits on the condition variable.
    pub notify: bool,
}

/// The side work that pre-applying `cmd` on `m` asks for.
pub open spec fn pre_action_spec(m: ActivityModel, cmd: AppCmd) -> PreAction {
    PreAction {
        detach_queue: if cmd == AppCmd::InputQueueChanged {
            m.input_queue
        } else {
            None
        },
        attach_queue: if cmd == AppCmd::InputQueueChanged {
            m.pending_input_queue
        } else {
            None
        },
        install_window: cmd == AppCmd::InitWindow,
        reload_config: cmd == AppCmd::ConfigChanged,
        notify: cmd == AppCmd::InputQueueChanged || cmd == AppCmd::InitWindow || target_state(
            cmd,
        ) is Some,
    }
}

/// The side work that post-applying `cmd` asks for.
pub open spec fn post_action_spec(cmd: AppCmd) -> PostAction {
    PostAction {
        clear_window: cmd == AppCmd::TermWindow,
        notify: cmd == AppCmd::TermWindow || cmd == AppCmd::SaveState,
    }
}

/// Takes one from an outstanding-command count, stopping at zero.
fn decrement(n: u8) -> (r: u8)
    ensures
        r == one_fewer(n),
{
    if n > 0 {
        n - 1
    } else {
        0
    }
}

/// Copies a byte slice into an owned buffer.
fn copy_bytes(bytes: &[u8]) -> (r: Vec<u8>)
    ensures
        r@ == bytes@,
{
    vstd::slice::slice_to_vec(bytes)
}

impl NativeActivityState {
    /// The record for a freshly started activity, with the channel's two
    /// descriptors and the bytes restored from an earlier save (no buffer when
    /// they are empty).
    pub fn new(msg_read: i32, msg_write: i32, saved: &[u8]) -> (r: NativeActivityState)
        ensures
            r@ == initial_model(msg_read, msg_write, saved@),
            r@.idle(),
    {
        let saved_state = if saved.len() > 0 {
            Some(copy_bytes(saved))
        } else {
            None
        };
        NativeActivityState {
            msg_read,
            msg_write,
            saved_state,
            input_queue: None,
            window: None,
            content_rect: Rect::empty(),
            activity_state: State::Init,
            destroy_requested: false,
            running: false,
            state_saved: false,
            destroyed: false,
            redraw_needed: false,
            pending_input_queue: None,
            pending_window: None,
            pending_content_rect: Rect::empty(),
            window_cmds_outstanding: 0,
            input_cmds_outstanding: 0,
        }
    }

    /// Drops the saved-state buffer, if any.
    fn free_saved_state(&mut self)
        ensures
            final(self)@ == (ActivityModel { saved_state: None, ..old(self)@ }),
    {
        self.saved_state = None;
    }

    /// Handles one attempt to read a command byte off the channel. An
    /// interrupted read is retried; a one-byte read that carries a known code
    /// yields its command (a `SaveState` first discards the stale buffer); an
    /// unknown byte, a short read or a failure yields nothing and leaves the
    /// record as it was.
    pub fn read_cmd(&mut self, outcome: IoOutcome, byte: i8) -> (r: ReadStep<AppCmd>)
        ensures
            (r, final(self)@) == read_step_spec(old(self)@, outcome, byte),
    {
        match outcome {
            IoOutcome::Interrupted => ReadStep::Retry,
            IoOutcome::Transferred(n) => {
                if n == 1 {
                    match AppCmd::try_from(byte) {
                        Ok(c) => {
                            if c == AppCmd::SaveState {
                                self.free_saved_state();
                            }
                            ReadStep::Done(Some(c))
                        },
                        Err(_) => ReadStep::Done(None),
                    }
                } else {
                    ReadStep::Done(None)
                }
            },
            IoOutcome::Failed => ReadStep::Done(None),
        }
    }

    /// The application thread's step before the user callback sees `cmd`:
    /// moves the pending input queue or window into place, records the new
    /// lifecycle state or the destroy request, and says what side work the
    /// caller owes.
    pub fn pre_exec_cmd(&mut self, cmd: AppCmd) -> (r: PreAction)
        ensures
            final(self)@ == pre_exec_spec(old(self)@, cmd),
            r == pre_action_spec(old(self)@, cmd),
    {
        let mut action = PreAction {
            detach_queue: None,
            attach_queue: None,
            install_window: false,
            reload_config: false,
            notify: false,
        };
        match cmd {
            AppCmd::InputQueueChanged => {
                action.detach_queue = self.input_queue;
                self.input_queue = self.pending_input_queue;
                self.input_cmds_outstanding = decrement(self.input_cmds_outstanding);
                action.attach_queue = self.input_queue;
                action.notify = true;
            },
            AppCmd::InitWindow => {
                self.window = self.pending_window;
                self.window_cmds_outstanding = decrement(self.window_cmds_outstanding);
                action.install_window = true;
                action.notify = true;
            },
            AppCmd::Start => {
                self.activity_state = State::Start;
                action.notify = true;
            },
            AppCmd::Resume => {
                self.activity_state = State::Resume;
                action.notify = true;
            },
            AppCmd::Pause => {
                self.activity_state = State::Pause;
                action.notify = true;
            },
            AppCmd::Stop => {
                self.activity_state = State::Stop;
                action.notify = true;
            },
            AppCmd::ConfigChanged => {
                action.reload_config = true;
            },
            AppCmd::Destroy => {
                self.destroy_requested = true;
            },
            _ => {},
        }
        action
    }

    /// The application thread's step after the user callback saw `cmd`:
    /// forgets a terminated window, marks the state as saved, or drops the
    /// saved buffer on resume, and says what side work the caller owes.
    pub fn post_exec_cmd(&mut self, cmd: AppCmd) -> (r: PostAction)
        ensures
            final(self)@ == post_exec_spec(old(self)@, cmd),
            r == post_action_spec(cmd),
    {
        match cmd {
            AppCmd::TermWindow => {
                self.window = None;
                self.window_cmds_outstanding = decrement(self.window_cmds_outstanding);
                PostAction { clear_window: true, notify: true }
            },
            AppCmd::SaveState => {
                self.state_saved = true;
                PostAction { clear_window: false, notify: true }
            },
            AppCmd::Resume => {
                self.free_saved_state();
                PostAction { clear_window: false, notify: false }
            },
            _ => PostAction { clear_window: false, notify: false },
        }
    }

    /// A copy of the saved-state bytes, or `None` when there are none.
    pub fn saved_state(&self) -> (r: Option<Vec<u8>>)
        ensures
            match r {
                Some(v) => self@.saved_state == Some(v@),
                None => self@.saved_state is None,
            },
    {
        match &self.saved_state {
            Some(b) => Some(copy_bytes(b.as_slice())),
            None => None,
        }
    }

    /// Replaces the saved-state buffer with a copy of `state`; the earlier
    /// buffer is dropped first.
    pub fn set_saved_state(&mut self, state: &[u8])
        ensures
            final(self)@ == store_saved_spec(old(self)@, state@),
    {
        self.free_saved_state();
        self.saved_state = Some(copy_bytes(state));
    }

    /// Records that the application thread has started.
    pub fn notify_main_thread_running(&mut self)
        ensures
            final(self)@ == (ActivityModel { running: true, ..old(self)@ }),
    {
        self.running = true;
    }
}

} // verus!
