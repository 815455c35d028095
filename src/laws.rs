//! Properties of the hand-off protocol as a whole, over the steps that the
//! host thread and the application thread take.
use vstd::prelude::*;
use crate::channel::{IoOutcome, ReadStep};
use crate::cmd::{AppCmd, cmd_decode, is_cmd_code};
use crate::host::{
    begin_input_spec,
    begin_save_spec,
    begin_window_spec,
    close_channel_spec,
    finish_input_spec,
    finish_window_spec,
    input_applied_spec,
    open_fd,
    state_cmd_spec,
    take_saved_spec,
    teardown_spec,
    window_applied_spec,
    window_cmds,
};
use crate::state::{
    ActivityModel,
    State,
    dispatch_all,
    dispatch_spec,
    read_step_spec,
    store_saved_spec,
};

verus! {

/// Dispatching one command is the one-element case of dispatching a list.
proof fn lemma_dispatch_one(m: ActivityModel, c: AppCmd)
    ensures
        dispatch_all(m, seq![c]) == dispatch_spec(m, c),
{
    assert(seq![c].drop_first() =~= Seq::<AppCmd>::empty());
    assert(dispatch_all(dispatch_spec(m, c), Seq::<AppCmd>::empty()) == dispatch_spec(m, c));
}

/// Dispatching two commands is dispatching the first, then the second.
proof fn lemma_dispatch_two(m: ActivityModel, a: AppCmd, b: AppCmd)
    ensures
        dispatch_all(m, seq![a, b]) == dispatch_spec(dispatch_spec(m, a), b),
{
    assert(seq![a, b].drop_first() =~= seq![b]);
    lemma_dispatch_one(dispatch_spec(m, a), b);
}

/// Once the application thread has dispatched the commands that a window
/// request sent, the current window is the requested one, no window command
/// is outstanding, and nothing else in the record has changed: the host
/// thread's wait ends with the requested window current.
pub proof fn lemma_window_handoff_completes(m: ActivityModel, w: Option<usize>)
    requires
        m.pending_window is None,
    ensures
        dispatch_all(begin_window_spec(m, w), window_cmds(m, w)) == (ActivityModel {
            window: w,
            window_cmds_outstanding: 0,
            ..begin_window_spec(m, w)
        }),
        window_applied_spec(dispatch_all(begin_window_spec(m, w), window_cmds(m, w))),
{
    let m1 = begin_window_spec(m, w);
    let cmds = window_cmds(m, w);
    if m.window is Some {
        if w is Some {
            assert(cmds =~= seq![AppCmd::TermWindow, AppCmd::InitWindow]);
            lemma_dispatch_two(m1, AppCmd::TermWindow, AppCmd::InitWindow);
        } else {
            assert(cmds =~= seq![AppCmd::TermWindow]);
            lemma_dispatch_one(m1, AppCmd::TermWindow);
        }
    } else {
        if w is Some {
            assert(cmds =~= seq![AppCmd::InitWindow]);
            lemma_dispatch_one(m1, AppCmd::InitWindow);
        } else {
            assert(cmds =~= Seq::<AppCmd>::empty());
        }
    }
}

/// Once the application thread has dispatched the `InputQueueChanged` that an
/// input-queue request sent, the current input queue is the requested one, no
/// input-queue command is outstanding, and nothing else in the record has
/// changed.
pub proof fn lemma_input_handoff_completes(m: ActivityModel, q: Option<usize>)
    requires
        m.pending_input_queue is None,
    ensures
        dispatch_all(begin_input_spec(m, q), seq![AppCmd::InputQueueChanged]) == (ActivityModel {
            input_queue: q,
            input_cmds_outstanding: 0,
            ..begin_input_spec(m, q)
        }),
        input_applied_spec(dispatch_all(begin_input_spec(m, q), seq![AppCmd::InputQueueChanged])),
{
    lemma_dispatch_one(begin_input_spec(m, q), AppCmd::InputQueueChanged);
}

/// The host thread's wait does not end early: after the application thread
/// applied only some of the window commands of a request, or none of its
/// input-queue command, the host thread's test still fails, also when the
/// requested window or queue is the current one.
pub proof fn lemma_wait_outlasts_outstanding_cmds(
    m: ActivityModel,
    w: Option<usize>,
    q: Option<usize>,
)
    ensures
        forall|k: int|
            0 <= k < window_cmds(m, w).len() ==> !window_applied_spec(
                #[trigger] dispatch_all(begin_window_spec(m, w), window_cmds(m, w).take(k)),
            ),
        !input_applied_spec(begin_input_spec(m, q)),
{
    let m1 = begin_window_spec(m, w);
    let cmds = window_cmds(m, w);
    assert forall|k: int| 0 <= k < cmds.len() implies !window_applied_spec(
        #[trigger] dispatch_all(m1, cmds.take(k)),
    ) by {
        if k == 0 {
            assert(cmds.take(0) =~= Seq::<AppCmd>::empty());
        } else {
            assert(cmds =~= seq![AppCmd::TermWindow, AppCmd::InitWindow]);
            assert(cmds.take(1) =~= seq![AppCmd::TermWindow]);
            lemma_dispatch_one(m1, AppCmd::TermWindow);
        }
    }
}

/// Once the application thread has dispatched the command for lifecycle
/// state `s`, it is in state `s`.
pub proof fn lemma_state_handoff_completes(m: ActivityModel, s: State)
    requires
        s != State::Init,
    ensures
        dispatch_all(m, seq![state_cmd_spec(s)]).activity_state == s,
{
    lemma_dispatch_one(m, state_cmd_spec(s));
}

/// Once the application thread has dispatched `SaveState`, the saved flag
/// that the host thread waits on is set.
pub proof fn lemma_save_handoff_completes(m: ActivityModel)
    ensures
        dispatch_all(begin_save_spec(m), seq![AppCmd::SaveState]).state_saved,
{
    lemma_dispatch_one(begin_save_spec(m), AppCmd::SaveState);
}

/// A window or input-queue hand-off that starts with no hand-off in flight
/// ends, after its pending slot is freed, with none in flight again: a
/// caller that issues one setter at a time never finds a slot occupied.
pub proof fn lemma_handoffs_return_to_idle(m: ActivityModel, w: Option<usize>, q: Option<usize>)
    requires
        m.idle(),
    ensures
        finish_window_spec(dispatch_all(begin_window_spec(m, w), window_cmds(m, w))).idle(),
        finish_input_spec(
            dispatch_all(begin_input_spec(m, q), seq![AppCmd::InputQueueChanged]),
        ).idle(),
{
    lemma_window_handoff_completes(m, w);
    lemma_input_handoff_completes(m, q);
}

/// Replacing a current window with a new one, the same one included, sends
/// `TermWindow` and then `InitWindow`, in that order and both.
pub proof fn lemma_window_replacement_order(m: ActivityModel, w: Option<usize>)
    requires
        m.window is Some,
        w is Some,
    ensures
        window_cmds(m, w) == seq![AppCmd::TermWindow, AppCmd::InitWindow],
{
    assert(window_cmds(m, w) =~= seq![AppCmd::TermWindow, AppCmd::InitWindow]);
}

/// After the host thread took the saved-state buffer out, none is left to
/// read; after bytes were stored, exactly those bytes are read back, and
/// none are left once they were taken out.
pub proof fn lemma_saved_state_round_trip(m: ActivityModel, bytes: Seq<u8>)
    ensures
        take_saved_spec(m).saved_state is None,
        store_saved_spec(m, bytes).saved_state == Some(bytes),
        take_saved_spec(store_saved_spec(m, bytes)).saved_state is None,
{
}

/// Teardown is terminal and idempotent: a second teardown changes nothing and
/// has no buffer left to release, and once the channel is closed a second
/// close finds no descriptor to close.
pub proof fn lemma_teardown_idempotent(m: ActivityModel)
    ensures
        teardown_spec(m).destroyed,
        teardown_spec(m).saved_state is None,
        teardown_spec(teardown_spec(m)) == teardown_spec(m),
        open_fd(close_channel_spec(m).msg_read) is None,
        open_fd(close_channel_spec(m).msg_write) is None,
        close_channel_spec(close_channel_spec(m)) == close_channel_spec(m),
{
}

/// An unknown byte read off the channel yields no command and leaves the
/// record unchanged; the read is over and the event loop goes on.
pub proof fn lemma_unknown_byte_is_ignored(m: ActivityModel, byte: i8)
    requires
        !is_cmd_code(byte),
    ensures
        read_step_spec(m, IoOutcome::Transferred(1), byte) == (ReadStep::<AppCmd>::Done(None), m),
{
    assert(cmd_decode(byte) is Err);
}

} // verus!
