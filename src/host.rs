//! The host thread's side of each hand-off: publish a pending value and name
//! the commands that wake the application thread, test whether the
//! application thread has applied it, and clear the pending slot afterwards.
//!
//! The caller holds the shared lock around each step and waits on the shared
//! condition variable between the test and the next test.
use vstd::prelude::*;
use crate::cmd::AppCmd;
use crate::state::{ActivityModel, NativeActivityState, State};

verus! {

/// The commands that asking for window `w` sends: `TermWindow` when a window
/// is current, then `InitWindow` when the new window exists.
pub open spec fn window_cmds(m: ActivityModel, w: Option<usize>) -> Seq<AppCmd> {
    (if m.window is Some {
        seq![AppCmd::TermWindow]
    } else {
        Seq::empty()
    }) + (if w is Some {
        seq![AppCmd::InitWindow]
    } else {
        Seq::empty()
    })
}

/// The host thread's test for the end of a window hand-off: every window
/// command it sent was applied, and the pending window is the current one.
pub open spec fn window_applied_spec(m: ActivityModel) -> bool {
    m.window_cmds_outstanding == 0 && m.window == m.pending_window
}

/// The host thread's test for the end of an input-queue hand-off: its
/// command was applied, and the pending queue is the current one.
pub open spec fn input_applied_spec(m: ActivityModel) -> bool {
    m.input_cmds_outstanding == 0 && m.input_queue == m.pending_input_queue
}

/// The command that moves the application to lifecycle state `s`.
pub open spec fn state_cmd_spec(s: State) -> AppCmd {
    match s {
        State::Start => AppCmd::Start,
        State::Resume => AppCmd::Resume,
        State::Pause => AppCmd::Pause,
        _ => AppCmd::Stop,
    }
}

/// The command that a change of window focus sends.
pub fn focus_cmd(focused: bool) -> (r: AppCmd)
    ensures
        r == (if focused {
            AppCmd::GainedFocus
        } else {
            AppCmd::LostFocus
        }),
{
    if focused {
        AppCmd::GainedFocus
    } else {
        AppCmd::LostFocus
    }
}

/// The command that asks the application thread to move to `s`. `Init` is
/// only the starting state and is never a target.
pub fn state_cmd(s: State) -> (r: AppCmd)
    requires
        s != State::Init,
    ensures
        r == state_cmd_spec(s),
{
    match s {
        State::Start => AppCmd::Start,
        State::Resume => AppCmd::Resume,
        State::Pause => AppCmd::Pause,
        _ => AppCmd::Stop,
    }
}

/// The record after the host thread published `w` as the pending window and
/// counted the commands it sends.
pub open spec fn begin_window_spec(m: ActivityModel, w: Option<usize>) -> ActivityModel {
    ActivityModel {
        pending_window: w,
        window_cmds_outstanding: window_cmds(m, w).len() as u8,
        ..m
    }
}

/// The record after the host thread freed the pending window slot.
pub open spec fn finish_window_spec(m: ActivityModel) -> ActivityModel {
    ActivityModel { pending_window: None, ..m }
}

/// The record after the host thread published `q` as the pending input queue
/// and counted the one command it sends.
pub open spec fn begin_input_spec(m: ActivityModel, q: Option<usize>) -> ActivityModel {
    ActivityModel { pending_input_queue: q, input_cmds_outstanding: 1, ..m }
}

/// The record after the host thread freed the pending input-queue slot.
pub open spec fn finish_input_spec(m: ActivityModel) -> ActivityModel {
    ActivityModel { pending_input_queue: None, ..m }
}

/// The record after the host thread started a save request.
pub open spec fn begin_save_spec(m: ActivityModel) -> ActivityModel {
    ActivityModel { state_saved: false, ..m }
}

/// The record after the host thread took the saved-state buffer out.
pub open spec fn take_saved_spec(m: ActivityModel) -> ActivityModel {
    ActivityModel { saved_state: None, ..m }
}

/// The record after teardown: buffer released, `destroyed` set for good.
pub open spec fn teardown_spec(m: ActivityModel) -> ActivityModel {
    ActivityModel { saved_state: None, destroyed: true, ..m }
}

/// The record after the host thread closed the channel.
pub open spec fn close_channel_spec(m: ActivityModel) -> ActivityModel {
    ActivityModel { msg_read: -1i32, msg_write: -1i32, ..m }
}

/// A descriptor that is still open, or `None` for a closed one.
pub open spec fn open_fd(fd: i32) -> Option<i32> {
    if fd >= 0 {
        Some(fd)
    } else {
        None
    }
}

impl NativeActivityState {
    /// Publishes `input_queue` as the pending input queue and names the
    /// command that wakes the application thread, `InputQueueChanged`, which
    /// is sent for every request. The pending slot must be free: a second
    /// input-queue hand-off never starts while one is in flight.
    pub fn begin_set_input(&mut self, input_queue: Option<usize>) -> (r: AppCmd)
        requires
            old(self).pending_input_queue is None,
        ensures
            final(self)@ == begin_input_spec(old(self)@, input_queue),
            r == AppCmd::InputQueueChanged,
    {
        self.pending_input_queue = input_queue;
        self.input_cmds_outstanding = 1;
        AppCmd::InputQueueChanged
    }

    /// Whether the application thread has applied the input-queue command
    /// and the pending input queue.
    pub fn input_applied(&self) -> (r: bool)
        ensures
            r == input_applied_spec(self@),
    {
        self.input_cmds_outstanding == 0 && self.input_queue == self.pending_input_queue
    }

    /// Frees the pending input-queue slot once the hand-off is over.
    pub fn finish_set_input(&mut self)
        ensures
            final(self)@ == finish_input_spec(old(self)@),
    {
        self.pending_input_queue = None;
    }

    /// Publishes `window` as the pending window and returns the commands to
    /// send, in order: `TermWindow` when a window is current, then
    /// `InitWindow` when `window` exists. The pending slot must be free.
    pub fn begin_set_window(&mut self, window: Option<usize>) -> (cmds: Vec<AppCmd>)
        requires
            old(self).pending_window is None,
        ensures
            final(self)@ == begin_window_spec(old(self)@, window),
            cmds@ == window_cmds(old(self)@, window),
    {
        let mut cmds: Vec<AppCmd> = Vec::new();
        if self.window.is_some() {
            cmds.push(AppCmd::TermWindow);
        }
        if window.is_some() {
            cmds.push(AppCmd::InitWindow);
        }
        self.pending_window = window;
        self.window_cmds_outstanding = cmds.len() as u8;
        proof {
            assert(cmds@ =~= window_cmds(old(self)@, window));
        }
        cmds
    }

    /// Whether the application thread has applied every window command and
    /// the pending window.
    pub fn window_applied(&self) -> (r: bool)
        ensures
            r == window_applied_spec(self@),
    {
        self.window_cmds_outstanding == 0 && self.window == self.pending_window
    }

    /// Frees the pending window slot once the hand-off is over.
    pub fn finish_set_window(&mut self)
        ensures
            final(self)@ == finish_window_spec(old(self)@),
    {
        self.pending_window = None;
    }

    /// Whether the application thread has reached lifecycle state `s`.
    pub fn activity_state_reached(&self, s: State) -> (r: bool)
        ensures
            r == (self.activity_state == s),
    {
        self.activity_state == s
    }

    /// Starts a save-state request: clears the saved flag and names the
    /// command that asks the application thread to save.
    pub fn begin_request_save_state(&mut self) -> (r: AppCmd)
        ensures
            final(self)@ == begin_save_spec(old(self)@),
            r == AppCmd::SaveState,
    {
        self.state_saved = false;
        AppCmd::SaveState
    }

    /// Whether the application thread has finished saving.
    pub fn save_state_done(&self) -> (r: bool)
        ensures
            r == self.state_saved,
    {
        self.state_saved
    }

    /// Takes the saved-state buffer out of the record, handing ownership to
    /// the caller.
    pub fn take_saved_state(&mut self) -> (r: Option<Vec<u8>>)
        ensures
            final(self)@ == take_saved_spec(old(self)@),
            match r {
                Some(v) => old(self)@.saved_state == Some(v@),
                None => old(self)@.saved_state is None,
            },
    {
        self.saved_state.take()
    }

    /// Tears the record down: releases the saved-state buffer, marks it
    /// destroyed, and returns the input queue that must be detached from the
    /// application's looper, if one is attached.
    pub fn teardown(&mut self) -> (detach: Option<usize>)
        ensures
            final(self)@ == teardown_spec(old(self)@),
            detach == old(self).input_queue,
    {
        self.saved_state = None;
        self.destroyed = true;
        self.input_queue
    }

    /// The channel's read descriptor, or `None` once the channel is closed.
    pub fn open_read_fd(&self) -> (r: Option<i32>)
        ensures
            r == open_fd(self.msg_read),
    {
        if self.msg_read >= 0 {
            Some(self.msg_read)
        } else {
            None
        }
    }

    /// The channel's write descriptor, or `None` once the channel is closed.
    pub fn open_write_fd(&self) -> (r: Option<i32>)
        ensures
            r == open_fd(self.msg_write),
    {
        if self.msg_write >= 0 {
            Some(self.msg_write)
        } else {
            None
        }
    }

    /// Marks both channel descriptors closed and returns those that were
    /// still open, read end first; the caller closes exactly these.
    pub fn close_channel(&mut self) -> (r: (Option<i32>, Option<i32>))
        ensures
            final(self)@ == close_channel_spec(old(self)@),
            r == (open_fd(old(self).msg_read), open_fd(old(self).msg_write)),
    {
        let read = self.open_read_fd();
        let write = self.open_write_fd();
        self.msg_read = -1;
        self.msg_write = -1;
        (read, write)
    }
}

} // verus!
