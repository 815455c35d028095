use android_activity::channel::{write_step, IoOutcome, ReadStep, WriteStep};
use android_activity::cmd::AppCmd;
use android_activity::host::{focus_cmd, state_cmd};
use android_activity::state::{NativeActivityState, PostAction, PreAction, Rect, State};

const ALL: [AppCmd; 16] = [
    AppCmd::InputQueueChanged,
    AppCmd::InitWindow,
    AppCmd::TermWindow,
    AppCmd::WindowResized,
    AppCmd::WindowRedrawNeeded,
    AppCmd::ContentRectChanged,
    AppCmd::GainedFocus,
    AppCmd::LostFocus,
    AppCmd::ConfigChanged,
    AppCmd::LowMemory,
    AppCmd::Start,
    AppCmd::Resume,
    AppCmd::SaveState,
    AppCmd::Pause,
    AppCmd::Stop,
    AppCmd::Destroy,
];

fn fresh() -> NativeActivityState {
    NativeActivityState::new(3, 4, &[])
}

fn dispatch(s: &mut NativeActivityState, c: AppCmd) {
    let step = s.read_cmd(IoOutcome::Transferred(1), c.code());
    assert_eq!(step, ReadStep::Done(Some(c)));
    s.pre_exec_cmd(c);
    s.post_exec_cmd(c);
}

#[test]
fn codes_decode_to_their_commands() {
    for (i, c) in ALL.iter().enumerate() {
        assert_eq!(c.code(), i as i8);
        assert_eq!(AppCmd::try_from(i as i8), Ok(*c));
    }
    assert_eq!(AppCmd::try_from(3i8), Ok(AppCmd::WindowResized));
    assert_eq!(AppCmd::try_from(15i8), Ok(AppCmd::Destroy));
}

#[test]
fn bytes_outside_range_do_not_decode() {
    assert_eq!(AppCmd::try_from(16i8), Err(()));
    assert_eq!(AppCmd::try_from(99i8), Err(()));
    assert_eq!(AppCmd::try_from(-1i8), Err(()));
    assert_eq!(AppCmd::try_from(i8::MIN), Err(()));
    assert_eq!(AppCmd::try_from(i8::MAX), Err(()));
}

#[test]
fn new_state_starts_empty() {
    let s = fresh();
    assert_eq!(s.msg_read, 3);
    assert_eq!(s.msg_write, 4);
    assert_eq!(s.activity_state, State::Init);
    assert_eq!(s.window, None);
    assert_eq!(s.input_queue, None);
    assert_eq!(s.content_rect, Rect::empty());
    assert_eq!(s.saved_state(), None);
    assert!(!s.running && !s.destroyed && !s.destroy_requested && !s.state_saved);
}

#[test]
fn new_state_keeps_restored_bytes() {
    let s = NativeActivityState::new(3, 4, &[7, 8, 9]);
    assert_eq!(s.saved_state(), Some(vec![7, 8, 9]));
}

#[test]
fn unknown_byte_leaves_state_unchanged() {
    let mut s = NativeActivityState::new(3, 4, &[1, 2]);
    s.window = Some(0x1000);
    let step = s.read_cmd(IoOutcome::Transferred(1), 99);
    assert_eq!(step, ReadStep::Done(None));
    assert_eq!(s.saved_state(), Some(vec![1, 2]));
    assert_eq!(s.window, Some(0x1000));
    assert_eq!(s.activity_state, State::Init);
    // The loop goes on: the next byte is read as usual.
    let step = s.read_cmd(IoOutcome::Transferred(1), AppCmd::Start.code());
    assert_eq!(step, ReadStep::Done(Some(AppCmd::Start)));
}

#[test]
fn interrupted_read_is_retried() {
    let mut s = fresh();
    assert_eq!(s.read_cmd(IoOutcome::Interrupted, 0), ReadStep::Retry);
    assert_eq!(s.read_cmd(IoOutcome::Failed, 0), ReadStep::Done(None));
    assert_eq!(s.read_cmd(IoOutcome::Transferred(0), 0), ReadStep::Done(None));
    assert_eq!(s.read_cmd(IoOutcome::Transferred(2), 0), ReadStep::Done(None));
}

#[test]
fn reading_save_state_discards_stale_buffer() {
    let mut s = NativeActivityState::new(3, 4, &[5]);
    let step = s.read_cmd(IoOutcome::Transferred(1), 12);
    assert_eq!(step, ReadStep::Done(Some(AppCmd::SaveState)));
    assert_eq!(s.saved_state(), None);
}

#[test]
fn write_steps() {
    assert_eq!(write_step(IoOutcome::Transferred(1)), WriteStep::Written);
    assert_eq!(write_step(IoOutcome::Interrupted), WriteStep::Retry);
    assert_eq!(write_step(IoOutcome::Failed), WriteStep::Dropped);
    assert_eq!(write_step(IoOutcome::Transferred(0)), WriteStep::Dropped);
}

#[test]
fn window_replacement_sends_term_then_init() {
    let mut s = fresh();
    s.window = Some(0x10);
    let cmds = s.begin_set_window(Some(0x20));
    assert_eq!(cmds, vec![AppCmd::TermWindow, AppCmd::InitWindow]);
    assert!(!s.window_applied());
    for c in cmds {
        dispatch(&mut s, c);
    }
    assert!(s.window_applied());
    assert_eq!(s.window, Some(0x20));
    s.finish_set_window();
    assert_eq!(s.pending_window, None);
}

#[test]
fn first_window_sends_init_only() {
    let mut s = fresh();
    let cmds = s.begin_set_window(Some(0x20));
    assert_eq!(cmds, vec![AppCmd::InitWindow]);
    let action = s.pre_exec_cmd(AppCmd::InitWindow);
    assert!(action.notify);
    assert!(action.install_window);
    assert!(s.window_applied());
}

#[test]
fn destroyed_window_sends_term_only() {
    let mut s = fresh();
    s.window = Some(0x10);
    let cmds = s.begin_set_window(None);
    assert_eq!(cmds, vec![AppCmd::TermWindow]);
    assert!(!s.window_applied());
    assert_eq!(
        s.post_exec_cmd(AppCmd::TermWindow),
        PostAction { clear_window: true, notify: true }
    );
    assert!(s.window_applied());
    s.finish_set_window();
    assert_eq!(s.window, None);
}

#[test]
fn no_window_to_no_window_sends_nothing() {
    let mut s = fresh();
    assert_eq!(s.begin_set_window(None), vec![]);
    assert!(s.window_applied());
}

#[test]
fn input_queue_handoff_attaches_and_detaches() {
    let mut s = fresh();
    s.input_queue = Some(0x100);
    assert_eq!(s.begin_set_input(Some(0x200)), AppCmd::InputQueueChanged);
    assert!(!s.input_applied());
    let action = s.pre_exec_cmd(AppCmd::InputQueueChanged);
    assert_eq!(
        action,
        PreAction {
            detach_queue: Some(0x100),
            attach_queue: Some(0x200),
            install_window: false,
            reload_config: false,
            notify: true,
        }
    );
    assert!(s.input_applied());
    s.finish_set_input();
    assert_eq!(s.pending_input_queue, None);
    assert_eq!(s.input_queue, Some(0x200));
}

#[test]
fn input_queue_removal() {
    let mut s = fresh();
    s.input_queue = Some(0x100);
    assert_eq!(s.begin_set_input(None), AppCmd::InputQueueChanged);
    assert!(!s.input_applied());
    dispatch(&mut s, AppCmd::InputQueueChanged);
    assert!(s.input_applied());
    assert_eq!(s.input_queue, None);
}

#[test]
fn lifecycle_commands_move_state() {
    let mut s = fresh();
    for st in [State::Start, State::Resume, State::Pause, State::Stop] {
        let c = state_cmd(st);
        assert!(!s.activity_state_reached(st));
        let action = s.pre_exec_cmd(c);
        assert!(action.notify);
        assert!(s.activity_state_reached(st));
    }
    assert_eq!(state_cmd(State::Resume), AppCmd::Resume);
    assert_eq!(s.activity_state, State::Stop);
}

#[test]
fn config_change_asks_for_reload() {
    let mut s = fresh();
    let action = s.pre_exec_cmd(AppCmd::ConfigChanged);
    assert!(action.reload_config);
    assert!(!action.notify);
}

#[test]
fn destroy_marks_request() {
    let mut s = fresh();
    s.pre_exec_cmd(AppCmd::Destroy);
    assert!(s.destroy_requested);
    assert!(!s.destroyed);
}

#[test]
fn focus_commands() {
    assert_eq!(focus_cmd(true), AppCmd::GainedFocus);
    assert_eq!(focus_cmd(false), AppCmd::LostFocus);
}

#[test]
fn save_state_round_trip() {
    let mut s = fresh();
    assert_eq!(s.begin_request_save_state(), AppCmd::SaveState);
    assert!(!s.save_state_done());
    s.read_cmd(IoOutcome::Transferred(1), AppCmd::SaveState.code());
    s.pre_exec_cmd(AppCmd::SaveState);
    // The user callback stores fresh bytes.
    s.set_saved_state(&[1, 2, 3]);
    assert_eq!(s.saved_state(), Some(vec![1, 2, 3]));
    assert_eq!(
        s.post_exec_cmd(AppCmd::SaveState),
        PostAction { clear_window: false, notify: true }
    );
    assert!(s.save_state_done());
    assert_eq!(s.take_saved_state(), Some(vec![1, 2, 3]));
    assert_eq!(s.saved_state(), None);
    assert_eq!(s.take_saved_state(), None);
}

#[test]
fn set_saved_state_replaces_buffer() {
    let mut s = NativeActivityState::new(3, 4, &[9, 9]);
    s.set_saved_state(&[4]);
    assert_eq!(s.saved_state(), Some(vec![4]));
    s.set_saved_state(&[]);
    assert_eq!(s.saved_state(), Some(vec![]));
    assert_eq!(s.take_saved_state(), Some(vec![]));
    assert_eq!(s.saved_state(), None);
}

#[test]
fn resume_drops_saved_buffer() {
    let mut s = NativeActivityState::new(3, 4, &[1]);
    assert!(!s.post_exec_cmd(AppCmd::Resume).notify);
    assert_eq!(s.saved_state(), None);
}

#[test]
fn main_thread_running() {
    let mut s = fresh();
    s.notify_main_thread_running();
    assert!(s.running);
}

#[test]
fn teardown_is_idempotent() {
    let mut s = NativeActivityState::new(3, 4, &[1, 2]);
    s.input_queue = Some(0x42);
    assert_eq!(s.teardown(), Some(0x42));
    assert!(s.destroyed);
    assert_eq!(s.saved_state(), None);
    assert_eq!(s.close_channel(), (Some(3), Some(4)));
    assert_eq!(s.open_read_fd(), None);
    assert_eq!(s.open_write_fd(), None);
    assert_eq!(s.close_channel(), (None, None));
    s.teardown();
    assert!(s.destroyed);
    assert_eq!(s.saved_state(), None);
}

#[test]
fn sequential_setters_never_clash() {
    let mut s = fresh();
    for w in [Some(1usize), Some(2), None, Some(3)] {
        let cmds = s.begin_set_window(w);
        for c in cmds {
            dispatch(&mut s, c);
        }
        assert!(s.window_applied());
        s.finish_set_window();
        assert_eq!(s.window, w);
        assert_eq!(s.pending_window, None);
    }
    for q in [Some(10usize), None, Some(11)] {
        let c = s.begin_set_input(q);
        dispatch(&mut s, c);
        assert!(s.input_applied());
        s.finish_set_input();
        assert_eq!(s.input_queue, q);
    }
}

#[test]
fn default_state_is_init() {
    assert_eq!(State::default(), State::Init);
}

#[test]
fn same_window_again_is_terminated_and_reinstalled() {
    let mut s = fresh();
    s.window = Some(0x10);
    let cmds = s.begin_set_window(Some(0x10));
    assert_eq!(cmds, vec![AppCmd::TermWindow, AppCmd::InitWindow]);
    // The window is already current, but the host keeps waiting.
    assert!(!s.window_applied());
    dispatch(&mut s, AppCmd::TermWindow);
    assert!(!s.window_applied());
    assert_eq!(s.window, None);
    dispatch(&mut s, AppCmd::InitWindow);
    assert!(s.window_applied());
    s.finish_set_window();
    assert_eq!(s.window, Some(0x10));
    assert_eq!(s.pending_window, None);
    assert_eq!(s.window_cmds_outstanding, 0);
}

#[test]
fn same_input_queue_again_is_resent() {
    let mut s = fresh();
    s.input_queue = Some(0x100);
    assert_eq!(s.begin_set_input(Some(0x100)), AppCmd::InputQueueChanged);
    assert!(!s.input_applied());
    let action = s.pre_exec_cmd(AppCmd::InputQueueChanged);
    assert_eq!(action.detach_queue, Some(0x100));
    assert_eq!(action.attach_queue, Some(0x100));
    assert!(s.input_applied());
    s.finish_set_input();
    assert_eq!(s.input_queue, Some(0x100));
    assert_eq!(s.input_cmds_outstanding, 0);
}

#[test]
fn clearing_absent_input_queue_still_sends_command() {
    let mut s = fresh();
    assert_eq!(s.begin_set_input(None), AppCmd::InputQueueChanged);
    assert!(!s.input_applied());
    dispatch(&mut s, AppCmd::InputQueueChanged);
    assert!(s.input_applied());
    s.finish_set_input();
    assert_eq!(s.input_queue, None);
}

#[test]
fn empty_saved_state_reads_back_empty() {
    let mut s = fresh();
    s.set_saved_state(&[]);
    assert_eq!(s.saved_state(), Some(vec![]));
}
