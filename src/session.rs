use vstd::prelude::*;
use crate::brightness::{clamp_percent, device_nits_of_percent, step_down, step_up};
use crate::error::BrightnessError;
use crate::protocol::{
    brightness_percent_result, get_brightness_percent, get_brightness_request, is_read_of,
    is_write_of, set_brightness_percent, FeatureTransfer,
};
use crate::report::ReportLayout;

verus! {

/// One brightness command, as given by the user.
#[derive(Debug, Clone, Copy, PartialEq, Eq, Structural)]
pub enum Command {
    /// Report the current brightness in percent.
    Get,
    /// Set the brightness to `percent`.
    SetPercent { percent: u8 },
    /// Raise the brightness by `step` percent.
    Up { step: u8 },
    /// Lower the brightness by `step` percent.
    Down { step: u8 },
}

/// What the caller has to do next.
#[derive(Debug)]
pub enum Action {
    /// Perform this read transfer and hand back the bytes it returned.
    Read(FeatureTransfer),
    /// Perform this write transfer; the command is done once it succeeds.
    Write(FeatureTransfer),
    /// The command is done: the current brightness is this percent.
    Report(u8),
    /// The command failed.
    Fail(BrightnessError),
}

/// A percent in `0..=100`; a step in `1..=100`.
pub open spec fn command_valid(c: Command) -> bool {
    match c {
        Command::Get => true,
        Command::SetPercent { percent } => percent <= 100,
        Command::Up { step } => 1 <= step <= 100,
        Command::Down { step } => 1 <= step <= 100,
    }
}

/// The percent a relative command moves to from `current`, kept in `[0, 100]`.
pub open spec fn stepped_percent(c: Command, current: int) -> int {
    match c {
        Command::Up { step } => clamp_percent(current + step),
        Command::Down { step } => clamp_percent(current - step),
        Command::SetPercent { percent } => percent as int,
        Command::Get => current,
    }
}

/// The action that opens a valid `SetPercent`: write the percent.
pub open spec fn is_set_action(a: Action, layout: ReportLayout, percent: u8) -> bool {
    a matches Action::Write(t) && is_write_of(t, layout, device_nits_of_percent(percent as int) as nat)
}

/// Decides how a command begins: a `SetPercent` writes at once, the others read the
/// current brightness first. An invalid command fails.
pub fn start(layout: ReportLayout, cmd: Command) -> (a: Action)
    ensures
        !command_valid(cmd) ==> a == Action::Fail(BrightnessError::InvalidInput),
        command_valid(cmd) ==> match cmd {
            Command::SetPercent { percent } => is_set_action(a, layout, percent),
            _ => a matches Action::Read(t) && is_read_of(t, layout),
        },
{
    match cmd {
        Command::Get => Action::Read(get_brightness_request(layout)),
        Command::SetPercent { percent } => {
            if percent > 100 {
                Action::Fail(BrightnessError::InvalidInput)
            } else {
                Action::Write(set_brightness_percent(layout, percent))
            }
        },
        Command::Up { step } | Command::Down { step } => {
            if step < 1 || step > 100 {
                Action::Fail(BrightnessError::InvalidInput)
            } else {
                Action::Read(get_brightness_request(layout))
            }
        },
    }
}

/// Decides what follows the read of the current brightness, given the bytes
/// the device returned: a get reports the percent, a step writes the stepped
/// percent. A bad response or an invalid command fails; a `SetPercent` writes as it
/// would have at the start.
pub fn after_read(layout: ReportLayout, cmd: Command, response: &Vec<u8>) -> (a: Action)
    ensures
        !command_valid(cmd) ==> a == Action::Fail(BrightnessError::InvalidInput),
        command_valid(cmd) ==> match cmd {
            Command::SetPercent { percent } => is_set_action(a, layout, percent),
            _ => match brightness_percent_result(layout, response@) {
                Err(e) => a == Action::Fail(e),
                Ok(current) => match cmd {
                    Command::Get => a == Action::Report(current),
                    _ => a matches Action::Write(t) && is_write_of(
                        t,
                        layout,
                        device_nits_of_percent(stepped_percent(cmd, current as int)) as nat,
                    ),
                },
            },
        },
{
    match cmd {
        Command::SetPercent { .. } => start(layout, cmd),
        _ => {
            if let Command::Up { step } | Command::Down { step } = cmd {
                if step < 1 || step > 100 {
                    return Action::Fail(BrightnessError::InvalidInput);
                }
            }
            match get_brightness_percent(layout, response) {
                Err(e) => Action::Fail(e),
                Ok(current) => match cmd {
                    Command::Up { step } => Action::Write(
                        set_brightness_percent(layout, step_up(current, step)),
                    ),
                    Command::Down { step } => Action::Write(
                        set_brightness_percent(layout, step_down(current, step)),
                    ),
                    _ => Action::Report(current),
                },
            }
        },
    }
}

} // verus!
