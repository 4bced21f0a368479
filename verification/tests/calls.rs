use wry_composition::bounds::{
    set_desktop_composition_bounds_for_hwnd, BoundsCall, BoundsUpdate, Rect,
};
use wry_composition::controller_ptr::{
    clear_composition_controller_ptr_for_hwnd_raw, get_composition_controller_ptr_for_hwnd_raw,
    release_composition_controller_ptr_raw, retain_composition_controller_ptr_raw,
    send_mouse_input_raw, set_controller_bounds_raw, set_is_visible_raw,
    store_composition_controller_ptr_for_hwnd_raw, MouseInput, PropertyCall, RawBoundsCall,
    ReferenceCall, VisibilityCall, COMP_CONTROLLER_PROP_NAME,
};
use wry_composition::dpi::{
    dpi_answered, get_function_impl, hwnd_dpi, DpiAnswer, DpiCall, ProcedureLookup, BASE_DPI,
};
use wry_composition::error::DesktopCompositionError;
use wry_composition::platform::{is_windows_7, UnsafeSend};
use wry_composition::prepare::{
    completed_controller, completion_status, prepare_desktop_composition, solid_color,
    BackgroundColor, PrepareCall, Preparation, E_POINTER, E_UNEXPECTED,
};
use wry_composition::registration::PreparedDesktopComposition;
use wry_composition::state::{CompositionStates, DesktopCompositionState};
use wry_composition::step::Step;
use wry_composition::window::WindowInfo;

const NULL: &str = "Null composition controller";

#[test]
fn composition_controller_lookup_rejects_null_hwnd() {
    assert_eq!(get_composition_controller_ptr_for_hwnd_raw(0), Step::Done(0));
}

#[test]
fn the_property_is_read_for_a_window() {
    match get_composition_controller_ptr_for_hwnd_raw(5) {
        Step::Pending(lookup) => {
            assert_eq!(lookup.call(), PropertyCall::GetProp { hwnd: 5 });
            assert_eq!(lookup.next(9), 9);
        }
        Step::Done(_) => panic!(),
    }
    assert_eq!(COMP_CONTROLLER_PROP_NAME, "MyWallpaper.Wry.WebView2CompositionController");
}

#[test]
fn only_a_controller_of_a_window_is_published() {
    assert_eq!(store_composition_controller_ptr_for_hwnd_raw(0, 5), Step::Done(()));
    assert_eq!(store_composition_controller_ptr_for_hwnd_raw(9, 0), Step::Done(()));
    assert_eq!(
        store_composition_controller_ptr_for_hwnd_raw(9, 5),
        Step::Pending(PropertyCall::SetProp { hwnd: 5, value: 9 })
    );
}

#[test]
fn a_newer_controller_stays_published() {
    assert_eq!(clear_composition_controller_ptr_for_hwnd_raw(0, 9), Step::Done(()));
    assert_eq!(clear_composition_controller_ptr_for_hwnd_raw(5, 0), Step::Done(()));
    match clear_composition_controller_ptr_for_hwnd_raw(5, 9) {
        Step::Pending(clear) => {
            assert_eq!(clear.call(), PropertyCall::GetProp { hwnd: 5 });
            assert_eq!(clear.next(9), Step::Pending(PropertyCall::RemoveProp { hwnd: 5 }));
            assert_eq!(clear.next(8), Step::Done(()));
            assert_eq!(clear.next(0), Step::Done(()));
        }
        Step::Done(()) => panic!(),
    }
}

#[test]
fn retaining_and_releasing_name_the_same_object() {
    assert_eq!(retain_composition_controller_ptr_raw(0), Err(NULL.to_string()));
    let retain = retain_composition_controller_ptr_raw(9).unwrap();
    assert_eq!(retain.call(), ReferenceCall::AddRef { pointer: 9 });
    assert_eq!(retain.next(), Ok(9));
    assert_eq!(release_composition_controller_ptr_raw(0), Step::Done(()));
    assert_eq!(
        release_composition_controller_ptr_raw(9),
        Step::Pending(ReferenceCall::Release { pointer: 9 })
    );
}

#[test]
fn mouse_input_is_sent_as_given() {
    assert_eq!(send_mouse_input_raw(0, 1, 2, 3, 4, 5), Err(NULL.to_string()));
    let input = send_mouse_input_raw(9, 1, 2, 3, 4, 5).unwrap();
    assert_eq!(
        input,
        MouseInput { comp_ptr: 9, event_kind: 1, virtual_keys: 2, mouse_data: 3, x: 4, y: 5 }
    );
    assert_eq!(input.next(Ok(())), Ok(()));
    assert_eq!(input.next(Err("E".to_string())), Err("SendMouseInput failed: E".to_string()));
}

/// Runs a resize by raw pointer, and returns the calls and the result.
fn resize_raw(replies: &[Result<isize, &str>]) -> (Vec<RawBoundsCall>, Result<(), String>) {
    let mut update = set_controller_bounds_raw(9, 640, 480).unwrap();
    let mut calls = vec![];
    for reply in replies {
        calls.push(update.call());
        match update.next(reply.map_err(|message| message.to_string())) {
            Step::Pending(next) => update = next,
            Step::Done(result) => return (calls, result),
        }
    }
    panic!("the resize is not over");
}

#[test]
fn a_resize_takes_the_container_along() {
    assert_eq!(set_controller_bounds_raw(0, 1, 1), Err(NULL.to_string()));
    let bounds = Rect { left: 0, top: 0, right: 640, bottom: 480 };
    let (calls, result) = resize_raw(&[Ok(8), Ok(7), Err("ignored"), Ok(0), Err("ignored")]);
    assert_eq!(result, Ok(()));
    assert_eq!(
        calls,
        vec![
            RawBoundsCall::QueryController { composition_controller: 9 },
            RawBoundsCall::ParentWindow { controller: 8 },
            RawBoundsCall::SetWindowPos {
                container: 7,
                x: 0,
                y: 0,
                width: 640,
                height: 480,
                no_activate: true,
                keep_z_order: true,
            },
            RawBoundsCall::SetBounds { controller: 8, bounds },
            RawBoundsCall::NotifyParentWindowPositionChanged { controller: 8 },
        ]
    );
    for parent in [Ok(0), Err("ignored")] {
        let (calls, result) = resize_raw(&[Ok(8), parent, Ok(0), Ok(0)]);
        assert_eq!(result, Ok(()));
        assert_eq!(calls[2], RawBoundsCall::SetBounds { controller: 8, bounds });
    }
    assert_eq!(
        resize_raw(&[Err("E")]).1,
        Err("QI for ICoreWebView2Controller failed: E".to_string())
    );
    assert_eq!(
        resize_raw(&[Ok(8), Ok(0), Err("E")]).1,
        Err("SetBounds failed: E".to_string())
    );
}

#[test]
fn a_controller_is_shown() {
    assert_eq!(set_is_visible_raw(0), Err(NULL.to_string()));
    let update = set_is_visible_raw(9).unwrap();
    assert_eq!(update.call(), VisibilityCall::QueryController { composition_controller: 9 });
    assert_eq!(
        update.next(Err("E".to_string())),
        Step::Done(Err("QI for ICoreWebView2Controller failed: E".to_string()))
    );
    match update.next(Ok(8)) {
        Step::Pending(update) => {
            assert_eq!(
                update.call(),
                VisibilityCall::SetIsVisible { controller: 8, visible: true }
            );
            assert_eq!(update.next(Ok(0)), Step::Done(Ok(())));
            assert_eq!(
                update.next(Err("E".to_string())),
                Step::Done(Err("SetIsVisible failed: E".to_string()))
            );
        }
        other => panic!("{other:?}"),
    }
}

fn states() -> CompositionStates {
    let mut states = CompositionStates::new();
    let state = DesktopCompositionState {
        controller: 1,
        device: 2,
        parking_target: 3,
        visual: 4,
        presentation_target: None,
        presentation_hwnd: 0,
        owner_thread: 7,
    };
    let prepared = PreparedDesktopComposition { controller_hwnd: 10, controller: 9, state };
    prepared.register(&mut states, 7).unwrap();
    states
}

fn resize(hwnd: isize, width: i32, height: i32) -> Result<BoundsUpdate, DesktopCompositionError> {
    let window = WindowInfo { hwnd, is_window: true, owner_thread: 7, children: vec![] };
    set_desktop_composition_bounds_for_hwnd(&states(), &window, 7, width, height)
}

fn failed<T>(message: &str) -> Result<T, DesktopCompositionError> {
    Err(DesktopCompositionError::OperationFailed(message.to_string()))
}

#[test]
fn bounds_must_be_positive() {
    for (width, height) in [(0, 1), (1, 0), (-1, 1), (1, -1)] {
        assert_eq!(
            resize(10, width, height),
            failed("WebView2 composition bounds must be positive")
        );
    }
    assert_eq!(resize(11, 0, 0), failed("WebView2 composition bounds must be positive"));
    assert_eq!(resize(11, 1, 1), Err(DesktopCompositionError::ControllerUnavailable));
}

#[test]
fn a_surface_is_resized_by_three_calls() {
    let update = resize(10, 640, 480).unwrap();
    assert_eq!(update.call(), BoundsCall::QueryController { composition_controller: 1 });
    assert_eq!(
        update.next(Err("E".to_string())),
        Step::Done(failed("querying ICoreWebView2Controller failed: E"))
    );
    let update = match update.next(Ok(8)) {
        Step::Pending(update) => update,
        other => panic!("{other:?}"),
    };
    let bounds = Rect { left: 0, top: 0, right: 640, bottom: 480 };
    assert_eq!(update.call(), BoundsCall::SetBounds { controller: 8, bounds });
    assert_eq!(update.next(Err("E".to_string())), Step::Done(failed("SetBounds failed: E")));
    let update = match update.next(Ok(0)) {
        Step::Pending(update) => update,
        other => panic!("{other:?}"),
    };
    assert_eq!(
        update.call(),
        BoundsCall::NotifyParentWindowPositionChanged { controller: 8 }
    );
    assert_eq!(
        update.next(Err("E".to_string())),
        Step::Done(failed("NotifyParentWindowPositionChanged failed: E"))
    );
    assert_eq!(update.next(Ok(0)), Step::Done(Ok(())));
}

/// Runs the creation of a controller; the calls hand out the handles 100, 101, ..
fn create(
    background: Option<(u8, u8, u8, u8)>,
    fails_at: Option<usize>,
) -> (Vec<PrepareCall>, Result<PreparedDesktopComposition, i32>) {
    let mut preparation: Preparation = prepare_desktop_composition(10, 50, true, background, 7);
    let mut calls = vec![];
    loop {
        let handle = 100 + calls.len() as isize;
        let reply = if fails_at == Some(calls.len()) { Err(-5) } else { Ok(handle) };
        calls.push(preparation.call());
        match preparation.next(reply) {
            Step::Pending(next) => preparation = next,
            Step::Done(result) => return (calls, result),
        }
    }
}

#[test]
fn a_controller_is_created_with_its_graph() {
    let (calls, result) = create(None, None);
    assert_eq!(
        calls,
        vec![
            PrepareCall::QueryEnvironment { environment: 50 },
            PrepareCall::CreateControllerOptions { environment: 100 },
            PrepareCall::SetIsInPrivateModeEnabled { options: 101, enabled: true },
            PrepareCall::CreateCompositionController { environment: 100, hwnd: 10, options: 101 },
            PrepareCall::AwaitCompositionController,
            PrepareCall::QueryController { composition_controller: 104 },
            PrepareCall::CreateDevice,
            PrepareCall::CreateTargetForHwnd { device: 106, hwnd: 10, topmost: true },
            PrepareCall::CreateVisual { device: 106 },
            PrepareCall::SetRoot { target: 107, visual: 108 },
            PrepareCall::QueryUnknown { visual: 108 },
            PrepareCall::SetRootVisualTarget { composition_controller: 104, visual: 110 },
            PrepareCall::Commit { device: 106 },
        ]
    );
    assert_eq!(
        result,
        Ok(PreparedDesktopComposition {
            controller_hwnd: 10,
            controller: 105,
            state: DesktopCompositionState {
                controller: 104,
                device: 106,
                parking_target: 107,
                visual: 108,
                presentation_target: None,
                presentation_hwnd: 0,
                owner_thread: 7,
            },
        })
    );
}

#[test]
fn a_background_colour_takes_two_more_calls() {
    let (calls, result) = create(Some((1, 2, 3, 4)), None);
    assert!(result.is_ok());
    assert_eq!(calls.len(), 15);
    assert_eq!(calls[2], PrepareCall::QueryControllerOptions { options: 101 });
    assert_eq!(
        calls[3],
        PrepareCall::SetDefaultBackgroundColor {
            options: 102,
            color: BackgroundColor { red: 1, green: 2, blue: 3, alpha: 255 },
        }
    );
    assert_eq!(
        calls[4],
        PrepareCall::SetIsInPrivateModeEnabled { options: 101, enabled: true }
    );
}

#[test]
fn the_first_failure_ends_the_creation() {
    for at in 0..13 {
        let (calls, result) = create(None, Some(at));
        assert_eq!(calls.len(), at + 1);
        assert_eq!(result, Err(-5));
    }
}

#[test]
fn a_background_is_transparent_or_opaque() {
    assert_eq!(solid_color((1, 2, 3, 0)).alpha, 0);
    assert_eq!(solid_color((1, 2, 3, 1)).alpha, 255);
    assert_eq!(solid_color((1, 2, 3, 255)).alpha, 255);
}

#[test]
fn a_completion_without_controller_is_a_failure() {
    assert_eq!(E_POINTER as u32, 0x8000_4003);
    assert_eq!(E_UNEXPECTED as u32, 0x8000_ffff);
    assert_eq!(completed_controller(Some(5)), Ok(5));
    assert_eq!(completed_controller::<u8>(None), Err(E_POINTER));
    assert_eq!(completion_status(true), Ok(()));
    assert_eq!(completion_status(false), Err(E_UNEXPECTED));
}

#[test]
fn the_newest_function_tells_the_resolution() {
    assert_eq!(hwnd_dpi(5, true, true), DpiCall::GetDpiForWindow { hwnd: 5 });
    assert_eq!(hwnd_dpi(5, true, false), DpiCall::GetDpiForWindow { hwnd: 5 });
    assert_eq!(hwnd_dpi(5, false, true), DpiCall::MonitorFromWindow { hwnd: 5, flags: 2 });
    assert_eq!(hwnd_dpi(5, false, false), DpiCall::GetDc { hwnd: 5 });
}

#[test]
fn an_unknown_resolution_is_the_base() {
    assert_eq!(BASE_DPI, 96);
    assert_eq!(dpi_answered(DpiAnswer::WindowDpi(0)), Step::Done(96));
    assert_eq!(dpi_answered(DpiAnswer::WindowDpi(144)), Step::Done(144));
    assert_eq!(dpi_answered(DpiAnswer::Monitor(0)), Step::Done(96));
    assert_eq!(dpi_answered(DpiAnswer::Monitor(-1)), Step::Done(96));
    assert_eq!(
        dpi_answered(DpiAnswer::Monitor(6)),
        Step::Pending(DpiCall::GetDpiForMonitor { monitor: 6, dpi_type: 0 })
    );
    // Only `S_OK` counts, and the horizontal resolution is taken.
    for (status, dpi) in [(0, 192), (1, 96), (-2147024809, 96)] {
        let answer = DpiAnswer::MonitorDpi { status, dpi_x: 192, dpi_y: 168 };
        assert_eq!(dpi_answered(answer), Step::Done(dpi));
    }
    assert_eq!(dpi_answered(DpiAnswer::DeviceContext(0)), Step::Done(96));
    assert_eq!(dpi_answered(DpiAnswer::DeviceContext(-1)), Step::Done(96));
    assert_eq!(
        dpi_answered(DpiAnswer::DeviceContext(6)),
        Step::Pending(DpiCall::IsProcessDpiAware { hdc: 6 })
    );
    assert_eq!(dpi_answered(DpiAnswer::DpiAware { hdc: 6, aware: false }), Step::Done(96));
    assert_eq!(
        dpi_answered(DpiAnswer::DpiAware { hdc: 6, aware: true }),
        Step::Pending(DpiCall::GetDeviceCaps { hdc: 6, index: 88 })
    );
    assert_eq!(dpi_answered(DpiAnswer::DeviceCaps(120)), Step::Done(120));
    assert_eq!(dpi_answered(DpiAnswer::DeviceCaps(-1)), Step::Done(u32::MAX));
}

/// Runs a query for the resolution, and returns the calls and the resolution.
fn resolution(first: DpiCall, answers: &[DpiAnswer]) -> (Vec<DpiCall>, u32) {
    let mut call = first;
    let mut calls = vec![];
    for answer in answers {
        calls.push(call);
        match dpi_answered(*answer) {
            Step::Pending(next) => call = next,
            Step::Done(dpi) => return (calls, dpi),
        }
    }
    panic!("the query is not over");
}

#[test]
fn the_resolution_follows_from_the_answers() {
    let by_window = hwnd_dpi(5, true, true);
    let asked = vec![DpiCall::GetDpiForWindow { hwnd: 5 }];
    assert_eq!(resolution(by_window, &[DpiAnswer::WindowDpi(144)]), (asked.clone(), 144));
    assert_eq!(resolution(by_window, &[DpiAnswer::WindowDpi(0)]), (asked, 96));

    let by_monitor = hwnd_dpi(5, false, true);
    let find = DpiCall::MonitorFromWindow { hwnd: 5, flags: 2 };
    let ask = DpiCall::GetDpiForMonitor { monitor: 6, dpi_type: 0 };
    let told = |monitor, status| {
        [
            DpiAnswer::Monitor(monitor),
            DpiAnswer::MonitorDpi { status, dpi_x: 192, dpi_y: 168 },
        ]
    };
    assert_eq!(resolution(by_monitor, &told(6, 0)), (vec![find, ask], 192));
    assert_eq!(resolution(by_monitor, &told(6, 1)), (vec![find, ask], 96));
    assert_eq!(resolution(by_monitor, &told(0, 0)), (vec![find], 96));

    let by_device = hwnd_dpi(5, false, false);
    let find = DpiCall::GetDc { hwnd: 5 };
    let check = DpiCall::IsProcessDpiAware { hdc: 6 };
    let ask = DpiCall::GetDeviceCaps { hdc: 6, index: 88 };
    let told = |hdc, aware| {
        [
            DpiAnswer::DeviceContext(hdc),
            DpiAnswer::DpiAware { hdc, aware },
            DpiAnswer::DeviceCaps(120),
        ]
    };
    assert_eq!(resolution(by_device, &told(6, true)), (vec![find, check, ask], 120));
    assert_eq!(resolution(by_device, &told(6, false)), (vec![find, check], 96));
    assert_eq!(resolution(by_device, &told(0, true)), (vec![find], 96));
}

#[test]
fn a_procedure_needs_a_module() {
    let function = "GetDpiForWindow\0";
    assert_eq!(get_function_impl(function, None), None);
    assert_eq!(get_function_impl(function, Some(0)), None);
    assert_eq!(
        get_function_impl(function, Some(3)),
        Some(ProcedureLookup { module: 3, function: function.to_string() })
    );
}

#[test]
fn windows_7_is_version_6_1() {
    assert!(is_windows_7(6, 1));
    assert!(!is_windows_7(6, 2));
    assert!(!is_windows_7(10, 1));
}

#[test]
fn a_value_is_handed_over_unchanged() {
    assert_eq!(UnsafeSend::new(vec![1, 2]).take(), vec![1, 2]);
}
