//! The resolution that a window is shown with.

use crate::step::Step;
use vstd::prelude::*;

verus! {

/// The resolution, in dots per inch, at which nothing is scaled.
pub const BASE_DPI: u32 = 96;

/// `MONITOR_DEFAULTTONEAREST`: of several monitors the nearest one is meant.
pub const MONITOR_DEFAULTTONEAREST: u32 = 2;

/// `MDT_EFFECTIVE_DPI`: the resolution that elements on the screen are scaled by.
pub const MDT_EFFECTIVE_DPI: i32 = 0;

/// `LOGPIXELSX`: the logical pixels per inch along the screen width.
pub const LOGPIXELSX: u32 = 88;

/// The status of a call that succeeded.
pub const S_OK: i32 = 0;

/// A call that is made to learn the resolution.
#[derive(Debug, Clone, Copy, PartialEq, Eq)]
pub enum DpiCall {
    /// `GetDpiForWindow`, on Windows 10 Anniversary Update and later.
    GetDpiForWindow { hwnd: isize },
    /// `MonitorFromWindow`, on Windows 8.1 and later.
    MonitorFromWindow { hwnd: isize, flags: u32 },
    /// `GetDpiForMonitor`
    GetDpiForMonitor { monitor: isize, dpi_type: i32 },
    /// `GetDC`, on Vista and later.
    GetDc { hwnd: isize },
    /// `IsProcessDPIAware`, once there is a device context.
    IsProcessDpiAware { hdc: isize },
    /// `GetDeviceCaps`
    GetDeviceCaps { hdc: isize, index: u32 },
}

/// What was answered to a call.
#[derive(Debug, Clone, Copy, PartialEq, Eq)]
pub enum DpiAnswer {
    /// The resolution of the window; 0 if the window is invalid.
    WindowDpi(u32),
    /// The monitor of the window.
    Monitor(isize),
    /// The status of the call, and the horizontal and the vertical resolution of the
    /// monitor as the call left them.
    MonitorDpi { status: i32, dpi_x: u32, dpi_y: u32 },
    /// The device context of the window.
    DeviceContext(isize),
    /// Whether the process scales for itself; `hdc` is the device context.
    DpiAware { hdc: isize, aware: bool },
    /// The capability that was asked for.
    DeviceCaps(i32),
}

/// The handle of a monitor or of a device context that stands for none.
pub open spec fn no_device(handle: isize) -> bool {
    handle == 0 || handle == -1
}

/// Whether the handle of a monitor or of a device context stands for none.
fn is_no_device(handle: isize) -> (result: bool)
    ensures
        result == no_device(handle),
{
    handle == 0 || handle == -1
}

/// `answer` is an answer to `call`.
pub open spec fn answers(answer: DpiAnswer, call: DpiCall) -> bool {
    match (answer, call) {
        (DpiAnswer::WindowDpi(_), DpiCall::GetDpiForWindow { .. }) => true,
        (DpiAnswer::Monitor(_), DpiCall::MonitorFromWindow { .. }) => true,
        (DpiAnswer::MonitorDpi { .. }, DpiCall::GetDpiForMonitor { .. }) => true,
        (DpiAnswer::DeviceContext(_), DpiCall::GetDc { .. }) => true,
        (DpiAnswer::DpiAware { hdc, .. }, DpiCall::IsProcessDpiAware { hdc: asked }) => hdc
            == asked,
        (DpiAnswer::DeviceCaps(_), DpiCall::GetDeviceCaps { .. }) => true,
        _ => false,
    }
}

/// The first call, by the functions that the system has.
pub open spec fn first_dpi_call(hwnd: isize, dpi_for_window: bool, dpi_for_monitor: bool) -> DpiCall {
    if dpi_for_window {
        DpiCall::GetDpiForWindow { hwnd }
    } else if dpi_for_monitor {
        DpiCall::MonitorFromWindow { hwnd, flags: MONITOR_DEFAULTTONEAREST }
    } else {
        DpiCall::GetDc { hwnd }
    }
}

/// The number of pixels as an unsigned number; a negative one wraps around.
pub open spec fn unsigned_pixels(pixels: i32) -> int {
    if pixels >= 0 {
        pixels as int
    } else {
        pixels + 0x1_0000_0000
    }
}

/// What an answer leads to. Where nothing is to be learnt, or where the system
/// scales for the process, the resolution is `BASE_DPI`.
pub open spec fn dpi_step(answer: DpiAnswer) -> Step<DpiCall, u32> {
    match answer {
        DpiAnswer::WindowDpi(dpi) => Step::Done(
            if dpi == 0 {
                BASE_DPI
            } else {
                dpi
            },
        ),
        DpiAnswer::Monitor(monitor) => if no_device(monitor) {
            Step::Done(BASE_DPI)
        } else {
            Step::Pending(DpiCall::GetDpiForMonitor { monitor, dpi_type: MDT_EFFECTIVE_DPI })
        },
        DpiAnswer::MonitorDpi { status, dpi_x, .. } => Step::Done(
            if status == S_OK {
                dpi_x
            } else {
                BASE_DPI
            },
        ),
        DpiAnswer::DeviceContext(hdc) => if no_device(hdc) {
            Step::Done(BASE_DPI)
        } else {
            Step::Pending(DpiCall::IsProcessDpiAware { hdc })
        },
        DpiAnswer::DpiAware { hdc, aware } => if aware {
            Step::Pending(DpiCall::GetDeviceCaps { hdc, index: LOGPIXELSX })
        } else {
            Step::Done(BASE_DPI)
        },
        DpiAnswer::DeviceCaps(pixels) => Step::Done(unsigned_pixels(pixels) as u32),
    }
}

/// Begins to learn the resolution of a window. `dpi_for_window` and
/// `dpi_for_monitor` tell which of the functions the system has.
pub fn hwnd_dpi(hwnd: isize, dpi_for_window: bool, dpi_for_monitor: bool) -> (result: DpiCall)
    ensures
        result == first_dpi_call(hwnd, dpi_for_window, dpi_for_monitor),
{
    if dpi_for_window {
        DpiCall::GetDpiForWindow { hwnd }
    } else if dpi_for_monitor {
        DpiCall::MonitorFromWindow { hwnd, flags: MONITOR_DEFAULTTONEAREST }
    } else {
        DpiCall::GetDc { hwnd }
    }
}

/// Goes on with the answer to the last call.
pub fn dpi_answered(answer: DpiAnswer) -> (result: Step<DpiCall, u32>)
    ensures
        result == dpi_step(answer),
{
    match answer {
        DpiAnswer::WindowDpi(dpi) => match dpi {
            0 => Step::Done(BASE_DPI),
            dpi => Step::Done(dpi),
        },
        DpiAnswer::Monitor(monitor) => {
            if is_no_device(monitor) {
                return Step::Done(BASE_DPI);
            }
            Step::Pending(DpiCall::GetDpiForMonitor { monitor, dpi_type: MDT_EFFECTIVE_DPI })
        },
        DpiAnswer::MonitorDpi { status, dpi_x, .. } => {
            if status == S_OK {
                Step::Done(dpi_x)
            } else {
                Step::Done(BASE_DPI)
            }
        },
        DpiAnswer::DeviceContext(hdc) => {
            if is_no_device(hdc) {
                return Step::Done(BASE_DPI);
            }
            Step::Pending(DpiCall::IsProcessDpiAware { hdc })
        },
        DpiAnswer::DpiAware { hdc, aware } => {
            if aware {
                Step::Pending(DpiCall::GetDeviceCaps { hdc, index: LOGPIXELSX })
            } else {
                Step::Done(BASE_DPI)
            }
        },
        DpiAnswer::DeviceCaps(pixels) => {
            assert(pixels < 0 ==> pixels as u32 == pixels + 0x1_0000_0000) by (bit_vector);
            Step::Done(
                #[verifier::truncate]
                (pixels as u32),
            )
        },
    }
}

/// How many more calls may follow a call.
pub open spec fn calls_left(call: DpiCall) -> nat {
    match call {
        DpiCall::GetDc { .. } => 2,
        DpiCall::IsProcessDpiAware { .. } | DpiCall::MonitorFromWindow { .. } => 1,
        _ => 0,
    }
}

/// The resolution is known after at most three calls: each answer ends the query or
/// leads to a call that fewer calls may follow.
pub proof fn law_dpi_query_ends(call: DpiCall, answer: DpiAnswer)
    requires
        answers(answer, call),
    ensures
        calls_left(call) <= 2,
        dpi_step(answer) matches Step::Pending(next) ==> calls_left(next) < calls_left(call),
{
}

/// Where a query that began with `call` stands after `replies`.
pub open spec fn run(call: DpiCall, replies: Seq<DpiAnswer>) -> Step<DpiCall, u32>
    decreases replies.len(),
{
    if replies.len() == 0 {
        Step::Pending(call)
    } else {
        match dpi_step(replies[0]) {
            Step::Pending(next) => run(next, replies.skip(1)),
            Step::Done(dpi) => Step::Done(dpi),
        }
    }
}

/// The calls that were made for `replies` to come.
pub open spec fn calls_made(call: DpiCall, replies: Seq<DpiAnswer>) -> Seq<DpiCall>
    decreases replies.len(),
{
    if replies.len() == 0 {
        Seq::empty()
    } else {
        match dpi_step(replies[0]) {
            Step::Pending(next) => seq![call] + calls_made(next, replies.skip(1)),
            Step::Done(_) => seq![call],
        }
    }
}

/// Where the system can tell the resolution of a window, that is the resolution, but
/// for the 0 of an invalid window. No other call is made, and it is of no consequence
/// what else the system can tell.
pub proof fn law_resolution_by_window(hwnd: isize, dpi_for_monitor: bool, dpi: u32)
    ensures
        ({
            let first = first_dpi_call(hwnd, true, dpi_for_monitor);
            let replies = seq![DpiAnswer::WindowDpi(dpi)];
            &&& run(first, replies) == Step::<DpiCall, _>::Done(
                if dpi != 0 {
                    dpi
                } else {
                    BASE_DPI
                },
            )
            &&& calls_made(first, replies) == seq![DpiCall::GetDpiForWindow { hwnd }]
        }),
{
}

/// Where the system can tell the resolution of monitors only, the resolution is the
/// horizontal one of the nearest monitor, if there is a monitor and it tells. The
/// monitor is asked if there is one.
pub proof fn law_resolution_by_monitor(
    hwnd: isize,
    monitor: isize,
    status: i32,
    dpi_x: u32,
    dpi_y: u32,
)
    ensures
        ({
            let first = first_dpi_call(hwnd, false, true);
            let replies = seq![
                DpiAnswer::Monitor(monitor),
                DpiAnswer::MonitorDpi { status, dpi_x, dpi_y },
            ];
            let find = DpiCall::MonitorFromWindow { hwnd, flags: MONITOR_DEFAULTTONEAREST };
            let ask = DpiCall::GetDpiForMonitor { monitor, dpi_type: MDT_EFFECTIVE_DPI };
            &&& run(first, replies) == Step::<DpiCall, _>::Done(
                if !no_device(monitor) && status == S_OK {
                    dpi_x
                } else {
                    BASE_DPI
                },
            )
            &&& calls_made(first, replies) == if no_device(monitor) {
                seq![find]
            } else {
                seq![find, ask]
            }
        }),
{
    reveal_with_fuel(run, 3);
    reveal_with_fuel(calls_made, 3);
}

/// Where the system can tell neither, the resolution is that of the device context
/// of the window, if there is one and the process scales for itself. The device is
/// asked in that case alone.
pub proof fn law_resolution_by_device(hwnd: isize, hdc: isize, aware: bool, pixels: i32)
    ensures
        ({
            let first = first_dpi_call(hwnd, false, false);
            let replies = seq![
                DpiAnswer::DeviceContext(hdc),
                DpiAnswer::DpiAware { hdc, aware },
                DpiAnswer::DeviceCaps(pixels),
            ];
            let find = DpiCall::GetDc { hwnd };
            let check = DpiCall::IsProcessDpiAware { hdc };
            let ask = DpiCall::GetDeviceCaps { hdc, index: LOGPIXELSX };
            &&& run(first, replies) == Step::<DpiCall, _>::Done(
                if !no_device(hdc) && aware {
                    unsigned_pixels(pixels) as u32
                } else {
                    BASE_DPI
                },
            )
            &&& calls_made(first, replies) == if no_device(hdc) {
                seq![find]
            } else if !aware {
                seq![find, check]
            } else {
                seq![find, check, ask]
            }
        }),
{
    reveal_with_fuel(run, 4);
    reveal_with_fuel(calls_made, 4);
}

/// A device handle stands for none exactly if it is 0 or -1. The number of pixels is
/// kept up to a multiple of the range of an unsigned number.
pub proof fn law_devices_and_pixels(handle: isize, pixels: i32)
    ensures
        no_device(handle) <==> handle == 0 || handle == -1,
        0 <= unsigned_pixels(pixels) <= u32::MAX,
        unsigned_pixels(pixels) == pixels || unsigned_pixels(pixels) == pixels + 0x1_0000_0000,
        BASE_DPI == 96,
        S_OK == 0,
        MONITOR_DEFAULTTONEAREST == 2,
        MDT_EFFECTIVE_DPI == 0,
        LOGPIXELSX == 88,
{
}

/// A procedure that is looked up in a module that was loaded.
#[derive(Debug, Clone, PartialEq, Eq)]
pub struct ProcedureLookup {
    pub module: isize,
    /// The name of the procedure, with a NUL at its end.
    pub function: String,
}

/// The module and the name that a function is looked up by.
pub open spec fn procedure_sought(function: Seq<char>, loaded: Option<isize>) -> Option<
    (isize, Seq<char>),
> {
    match loaded {
        Some(module) if module != 0 => Some((module, function)),
        _ => None,
    }
}

/// Looks up a function of a system library, given the module that loading the
/// library gave, if it gave one. There is nothing to look up without a module.
pub fn get_function_impl(function: &str, loaded: Option<isize>) -> (result: Option<ProcedureLookup>)
    requires
        function@.len() > 0,
        function@.last() == '\0',
    ensures
        match result {
            Some(lookup) => {
                &&& loaded == Some(lookup.module)
                &&& lookup.module != 0
                &&& lookup.function@ == function@
            },
            None => loaded is None || loaded == Some(0isize),
        },
        procedure_sought(function@, loaded) == match result {
            Some(lookup) => Some((lookup.module, lookup.function@)),
            None => None,
        },
{
    match loaded {
        Some(module) => {
            if module == 0 {
                return None;
            }
            Some(ProcedureLookup { module, function: function.to_owned() })
        },
        None => None,
    }
}

/// A function is looked up by its own name in the module that was loaded, and not at
/// all where none was.
pub proof fn law_procedure_is_sought_in_its_module(function: Seq<char>, module: isize)
    ensures
        module != 0 ==> procedure_sought(function, Some(module)) == Some((module, function)),
        procedure_sought(function, Some(0)) is None,
        procedure_sought(function, None) is None,
{
}

} // verus!
