//! Userspace access to the analog comparators of a board: the system-call
//! driver over a chip's comparator peripheral.
use vstd::prelude::*;
use crate::callback::{AppId, Callback};
use crate::hil;
use crate::returncode::ReturnCode;

verus! {

/// System-call driver number.
pub const DRIVER_NUM: usize = 0x00007;

/// The command a command number selects.
#[derive(Clone, Copy, Debug, PartialEq, Eq, Structural)]
pub enum ComparatorCommand {
    /// `0`: driver check.
    DriverCheck,
    /// `1`: enable the comparators (clock and controller).
    Enable,
    /// `2`: a simple comparison on comparator `data`.
    Comparison,
    /// `3`: a window comparison on window `data`.
    WindowComparison,
    /// `4`: enable the interrupts of comparator `data`.
    EnableInterrupts,
    /// Any other number.
    Unsupported,
}

pub open spec fn command_of(command_num: usize) -> ComparatorCommand {
    if command_num == 0 {
        ComparatorCommand::DriverCheck
    } else if command_num == 1 {
        ComparatorCommand::Enable
    } else if command_num == 2 {
        ComparatorCommand::Comparison
    } else if command_num == 3 {
        ComparatorCommand::WindowComparison
    } else if command_num == 4 {
        ComparatorCommand::EnableInterrupts
    } else {
        ComparatorCommand::Unsupported
    }
}

/// The command selected by `command_num`.
pub fn decode_command(command_num: usize) -> (r: ComparatorCommand)
    ensures
        r == command_of(command_num),
{
    match command_num {
        0 => ComparatorCommand::DriverCheck,
        1 => ComparatorCommand::Enable,
        2 => ComparatorCommand::Comparison,
        3 => ComparatorCommand::WindowComparison,
        4 => ComparatorCommand::EnableInterrupts,
        _ => ComparatorCommand::Unsupported,
    }
}

/// What the peripheral answered when a command asked it something.
#[derive(Clone, Copy, Debug, PartialEq, Eq, Structural)]
pub enum PeripheralResponse {
    /// The command does not ask the peripheral.
    NotAsked,
    /// The return code of enabling the comparators or their interrupts.
    Status(ReturnCode),
    /// The outcome of a (window) comparison.
    Comparison(bool),
}

/// The code a comparison's outcome is reported with: success with value 1
/// when true, 0 when false.
pub open spec fn comparison_code(b: bool) -> ReturnCode {
    ReturnCode::SuccessWithValue {
        value: if b {
            1
        } else {
            0
        },
    }
}

/// Whether `response` is the kind of answer `command` asks for.
pub open spec fn response_fits(command: ComparatorCommand, response: PeripheralResponse) -> bool {
    match command {
        ComparatorCommand::DriverCheck | ComparatorCommand::Unsupported => response
            is NotAsked,
        ComparatorCommand::Enable | ComparatorCommand::EnableInterrupts => response is Status,
        ComparatorCommand::Comparison | ComparatorCommand::WindowComparison => response
            is Comparison,
    }
}

pub open spec fn command_result_spec(
    command: ComparatorCommand,
    response: PeripheralResponse,
) -> ReturnCode {
    match (command, response) {
        (ComparatorCommand::DriverCheck, _) => ReturnCode::SUCCESS,
        (ComparatorCommand::Unsupported, _) => ReturnCode::ENOSUPPORT,
        (_, PeripheralResponse::Status(r)) => r,
        (_, PeripheralResponse::Comparison(b)) => ReturnCode::SuccessWithValue {
            value: if b {
                1
            } else {
                0
            },
        },
        (_, PeripheralResponse::NotAsked) => ReturnCode::FAIL,
    }
}

/// The return code of `command` given the peripheral's answer: success for
/// the driver check, unsupported for unknown numbers, the peripheral's own
/// code when enabling, and the outcome (1 or 0) of a comparison.
pub fn command_result(command: ComparatorCommand, response: PeripheralResponse) -> (r: ReturnCode)
    requires
        response_fits(command, response),
    ensures
        r == command_result_spec(command, response),
{
    match command {
        ComparatorCommand::DriverCheck => ReturnCode::SUCCESS,
        ComparatorCommand::Unsupported => ReturnCode::ENOSUPPORT,
        _ => match response {
            PeripheralResponse::Status(r) => r,
            PeripheralResponse::Comparison(b) => ReturnCode::SuccessWithValue {
                value: if b {
                    1
                } else {
                    0
                },
            },
            PeripheralResponse::NotAsked => ReturnCode::FAIL,
        },
    }
}

/// The analog-comparator driver: the peripheral, and the callback (of
/// type `K`, normally `Callback`) of the process subscribed to its
/// interrupts.
pub struct AnalogComparator<'a, A: hil::AnalogComparator, K = Callback> {
    ac: &'a A,
    callback: Option<K>,
}

impl<'a, A: hil::AnalogComparator, K: Copy> AnalogComparator<'a, A, K> {
    /// The subscribed callback, if any.
    pub closed spec fn callback_value(&self) -> Option<K> {
        self.callback
    }

    /// The peripheral driven.
    pub closed spec fn comparator(&self) -> &'a A {
        self.ac
    }

    pub fn new(ac: &'a A) -> (r: AnalogComparator<'a, A, K>)
        ensures
            r.comparator() == ac,
            r.callback_value() is None,
    {
        AnalogComparator { ac, callback: None }
    }

    /// The subscribed callback, if any.
    pub fn callback(&self) -> (r: Option<K>)
        ensures
            r == self.callback_value(),
    {
        self.callback
    }

    /// Controls the analog comparator:
    /// `0` driver check; `1` enable; `2` simple comparison on comparator
    /// `data` (value 1 when its positive input is the higher); `3` window
    /// comparison on window `data`; `4` enable the interrupts of comparator
    /// `data`; any other number is unsupported.  Commands `1` and `4`
    /// return what the peripheral returns.
    pub fn command(&self, command_num: usize, data: usize, _unused: usize, _app: AppId) -> (r:
        ReturnCode)
        ensures
            command_num == 0 ==> r == ReturnCode::SUCCESS,
            command_num == 2 || command_num == 3 ==> (r matches ReturnCode::SuccessWithValue {
                value,
            } && value <= 1),
            command_num > 4 ==> r == ReturnCode::ENOSUPPORT,
            command_num == 1 ==> call_ensures(A::enable, (self.comparator(),), r),
            command_num == 2 ==> (exists|b: bool|
                call_ensures(A::comparison, (self.comparator(), data), b) && r == comparison_code(
                    b,
                )),
            command_num == 3 ==> (exists|b: bool|
                call_ensures(A::window_comparison, (self.comparator(), data), b) && r
                    == comparison_code(b)),
            command_num == 4 ==> call_ensures(A::enable_interrupts, (self.comparator(), data), r),
            exists|response: PeripheralResponse|
                response_fits(command_of(command_num), response) && r == command_result_spec(
                    command_of(command_num),
                    response,
                ),
    {
        let command = decode_command(command_num);
        match command {
            ComparatorCommand::Enable => {
                let status = self.ac.enable();
                command_result(command, PeripheralResponse::Status(status))
            },
            ComparatorCommand::Comparison => {
                let b = self.ac.comparison(data);
                let r = command_result(command, PeripheralResponse::Comparison(b));
                assert(r == comparison_code(b));
                r
            },
            ComparatorCommand::WindowComparison => {
                let b = self.ac.window_comparison(data);
                let r = command_result(command, PeripheralResponse::Comparison(b));
                assert(r == comparison_code(b));
                r
            },
            ComparatorCommand::EnableInterrupts => {
                let status = self.ac.enable_interrupts(data);
                command_result(command, PeripheralResponse::Status(status))
            },
            _ => command_result(command, PeripheralResponse::NotAsked),
        }
    }

    /// Subscribes `callback` to all the comparator's interrupts (number
    /// `0`); any other subscription number is unsupported and changes
    /// nothing.
    pub fn subscribe(
        &mut self,
        subscribe_num: usize,
        callback: Option<K>,
        _app_id: AppId,
    ) -> (r: ReturnCode)
        ensures
            final(self).comparator() == old(self).comparator(),
            subscribe_num == 0 ==> r == ReturnCode::SUCCESS && final(self).callback_value()
                == callback,
            subscribe_num != 0 ==> r == ReturnCode::ENOSUPPORT && final(self).callback_value()
                == old(self).callback_value(),
    {
        match subscribe_num {
            0 => {
                self.callback = callback;
                ReturnCode::SUCCESS
            },
            _ => ReturnCode::ENOSUPPORT,
        }
    }

    /// An interrupt fired: the callback to schedule, with the arguments
    /// `0, 0, 0`.  The driver unwraps the callback, panicking when no
    /// process has subscribed; that case is left out.
    pub fn fired(&self) -> (r: (K, usize, usize, usize))
        requires
            self.callback_value() is Some,
        ensures
            r == (self.callback_value()->0, 0usize, 0usize, 0usize),
    {
        (self.callback.unwrap(), 0, 0, 0)
    }
}


} // verus!
