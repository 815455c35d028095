//! The closed set of commands and their one-byte wire codes.
use vstd::prelude::*;

verus! {

/// One event sent from the host thread to the application thread.
#[derive(Clone, Copy, PartialEq, Eq, Structural, Debug)]
pub enum AppCmd {
    InputQueueChanged,
    InitWindow,
    TermWindow,
    WindowResized,
    WindowRedrawNeeded,
    ContentRectChanged,
    GainedFocus,
    LostFocus,
    ConfigChanged,
    LowMemory,
    Start,
    Resume,
    SaveState,
    Pause,
    Stop,
    Destroy,
}

/// The byte that carries `c` over the channel.
pub open spec fn cmd_code(c: AppCmd) -> i8 {
    match c {
        AppCmd::InputQueueChanged => 0,
        AppCmd::InitWindow => 1,
        AppCmd::TermWindow => 2,
        AppCmd::WindowResized => 3,
        AppCmd::WindowRedrawNeeded => 4,
        AppCmd::ContentRectChanged => 5,
        AppCmd::GainedFocus => 6,
        AppCmd::LostFocus => 7,
        AppCmd::ConfigChanged => 8,
        AppCmd::LowMemory => 9,
        AppCmd::Start => 10,
        AppCmd::Resume => 11,
        AppCmd::SaveState => 12,
        AppCmd::Pause => 13,
        AppCmd::Stop => 14,
        AppCmd::Destroy => 15,
    }
}

/// A byte is a command code exactly when it lies in `0..16`.
pub open spec fn is_cmd_code(v: i8) -> bool {
    0 <= v < 16
}

/// The command that a wire byte carries, or `Err(())` for an unknown byte.
pub open spec fn cmd_decode(v: i8) -> Result<AppCmd, ()> {
    match v {
        0 => Ok(AppCmd::InputQueueChanged),
        1 => Ok(AppCmd::InitWindow),
        2 => Ok(AppCmd::TermWindow),
        3 => Ok(AppCmd::WindowResized),
        4 => Ok(AppCmd::WindowRedrawNeeded),
        5 => Ok(AppCmd::ContentRectChanged),
        6 => Ok(AppCmd::GainedFocus),
        7 => Ok(AppCmd::LostFocus),
        8 => Ok(AppCmd::ConfigChanged),
        9 => Ok(AppCmd::LowMemory),
        10 => Ok(AppCmd::Start),
        11 => Ok(AppCmd::Resume),
        12 => Ok(AppCmd::SaveState),
        13 => Ok(AppCmd::Pause),
        14 => Ok(AppCmd::Stop),
        15 => Ok(AppCmd::Destroy),
        _ => Err(()),
    }
}

impl AppCmd {
    /// The wire code of this command.
    pub fn code(self) -> (r: i8)
        ensures
            r == cmd_code(self),
    {
        match self {
            AppCmd::InputQueueChanged => 0,
            AppCmd::InitWindow => 1,
            AppCmd::TermWindow => 2,
            AppCmd::WindowResized => 3,
            AppCmd::WindowRedrawNeeded => 4,
            AppCmd::ContentRectChanged => 5,
            AppCmd::GainedFocus => 6,
            AppCmd::LostFocus => 7,
            AppCmd::ConfigChanged => 8,
            AppCmd::LowMemory => 9,
            AppCmd::Start => 10,
            AppCmd::Resume => 11,
            AppCmd::SaveState => 12,
            AppCmd::Pause => 13,
            AppCmd::Stop => 14,
            AppCmd::Destroy => 15,
        }
    }
}

impl core::convert::TryFrom<i8> for AppCmd {
    type Error = ();

    /// Decodes a wire byte; any byte outside `0..16` is an error.
    fn try_from(value: i8) -> (r: Result<AppCmd, ()>)
        ensures
            r == cmd_decode(value),
    {
        match value {
            0 => Ok(AppCmd::InputQueueChanged),
            1 => Ok(AppCmd::InitWindow),
            2 => Ok(AppCmd::TermWindow),
            3 => Ok(AppCmd::WindowResized),
            4 => Ok(AppCmd::WindowRedrawNeeded),
            5 => Ok(AppCmd::ContentRectChanged),
            6 => Ok(AppCmd::GainedFocus),
            7 => Ok(AppCmd::LostFocus),
            8 => Ok(AppCmd::ConfigChanged),
            9 => Ok(AppCmd::LowMemory),
            10 => Ok(AppCmd::Start),
            11 => Ok(AppCmd::Resume),
            12 => Ok(AppCmd::SaveState),
            13 => Ok(AppCmd::Pause),
            14 => Ok(AppCmd::Stop),
            15 => Ok(AppCmd::Destroy),
            _ => Err(()),
        }
    }
}

impl vstd::std_specs::convert::TryFromSpecImpl<i8> for AppCmd {
    open spec fn obeys_try_from_spec() -> bool {
        true
    }

    open spec fn try_from_spec(v: i8) -> Result<AppCmd, ()> {
        cmd_decode(v)
    }
}

/// Decoding the code of a command gives that command back, and a byte decodes
/// to a command exactly when it lies in `0..16`.
pub proof fn lemma_code_round_trip(c: AppCmd, v: i8)
    ensures
        cmd_decode(cmd_code(c)) == Ok::<AppCmd, ()>(c),
        cmd_decode(v) is Ok <==> is_cmd_code(v),
        cmd_decode(v) matches Ok(d) ==> cmd_code(d) == v,
{
}

} // verus!
