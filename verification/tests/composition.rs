use wry_composition::error::DesktopCompositionError;
use wry_composition::host::{
    desktop_composition_is_attached_to_hwnd, desktop_composition_ready_for_hwnd,
    detach_desktop_composition_for_hwnd, retarget_desktop_composition_for_hwnd,
};
use wry_composition::mode::{
    composition_mode_enabled_for_webview_id, enable_composition_mode_for_webview_id,
    CompositionModeRegistry,
};
use wry_composition::registration::PreparedDesktopComposition;
use wry_composition::state::{CompositionStates, DesktopCompositionState};
use wry_composition::step::Step;
use wry_composition::transition::{transition_error, CompositionCall, VisualMove};
use wry_composition::window::{
    controller_hwnd_for_hwnd, ensure_owner_thread, find_controller_child, needs_children,
    ControllerLookup, WindowInfo,
};

const THREAD: u32 = 7;

fn state() -> DesktopCompositionState {
    DesktopCompositionState {
        controller: 1,
        device: 2,
        parking_target: 3,
        visual: 4,
        presentation_target: None,
        presentation_hwnd: 0,
        owner_thread: THREAD,
    }
}

/// Registers a controller, as its own thread does.
fn register(states: &mut CompositionStates, hwnd: isize, state: DesktopCompositionState) {
    let owner_thread = state.owner_thread;
    let prepared = PreparedDesktopComposition { controller_hwnd: hwnd, controller: 9, state };
    prepared.register(states, owner_thread).unwrap();
}

fn states() -> CompositionStates {
    let mut states = CompositionStates::new();
    register(&mut states, 10, state());
    states
}

fn window(hwnd: isize) -> WindowInfo {
    WindowInfo { hwnd, is_window: true, owner_thread: THREAD, children: vec![] }
}

fn failed(message: &str) -> Result<(), DesktopCompositionError> {
    Err(DesktopCompositionError::OperationFailed(message.to_string()))
}

/// Runs a move with the given replies, and returns the calls and the result.
fn drive(
    begun: VisualMove,
    states: &mut CompositionStates,
    replies: &[Result<(), &str>],
) -> (Vec<CompositionCall>, Result<(), DesktopCompositionError>) {
    let mut calls = vec![];
    let mut current = begun;
    for reply in replies {
        calls.push(current.call());
        match current.next(states, reply.map_err(|message| message.to_string())) {
            Step::Pending(next) => current = next,
            Step::Done(result) => {
                assert_eq!(calls.len(), replies.len());
                return (calls, result);
            }
        }
    }
    panic!("the move is not over");
}

fn begin_retarget(states: &CompositionStates, hwnd: isize, target: isize) -> VisualMove {
    match retarget_desktop_composition_for_hwnd(states, &window(10), THREAD, hwnd, true) {
        Ok(Step::Pending(retarget)) => {
            assert_eq!(
                retarget.call(),
                CompositionCall::CreateTargetForHwnd { device: 2, hwnd, topmost: true }
            );
            retarget.next(Ok(target)).unwrap()
        }
        other => panic!("{other:?}"),
    }
}

fn begin_detach(states: &mut CompositionStates) -> VisualMove {
    match detach_desktop_composition_for_hwnd(states, &window(10), THREAD) {
        Ok(Step::Pending(begun)) => begun,
        other => panic!("{other:?}"),
    }
}

fn attached(states: &CompositionStates, hwnd: isize) -> bool {
    desktop_composition_is_attached_to_hwnd(states, &window(10), THREAD, hwnd).unwrap()
}

#[test]
fn desktop_composition_error_is_explicit() {
    assert!(DesktopCompositionError::ControllerUnavailable
        .to_string()
        .contains("unavailable"));
}

#[test]
fn every_error_has_its_message() {
    assert_eq!(
        DesktopCompositionError::ControllerUnavailable.to_string(),
        "WebView2 composition controller is unavailable"
    );
    assert_eq!(
        DesktopCompositionError::WrongThread { owner: 41, current: 4200 }.to_string(),
        "WebView2 composition controller belongs to UI thread 41, not thread 4200"
    );
    assert_eq!(
        DesktopCompositionError::InvalidPresentationWindow.to_string(),
        "composition presentation HWND is invalid"
    );
    assert_eq!(
        DesktopCompositionError::RegistryUnavailable.to_string(),
        "desktop-composition startup registry is unavailable"
    );
    assert_eq!(
        DesktopCompositionError::ControllerAlreadyRegistered.to_string(),
        "a desktop-composition controller is already registered for this HWND"
    );
    assert_eq!(DesktopCompositionError::OperationFailed("x: y".to_string()).to_string(), "x: y");
}

#[test]
fn wrong_owner_thread_is_rejected() {
    assert_eq!(
        ensure_owner_thread(41, 42),
        Err(DesktopCompositionError::WrongThread {
            owner: 41,
            current: 42,
        })
    );
}

#[test]
fn owner_thread_is_accepted() {
    assert_eq!(ensure_owner_thread(41, 41), Ok(()));
}

#[test]
fn composition_mode_is_opt_in_per_webview_id() {
    let mut registry = CompositionModeRegistry::new();
    let id = "mywallpaper-test-composition-opt-in";
    assert_eq!(composition_mode_enabled_for_webview_id(&registry, id), Ok(false));
    assert_eq!(enable_composition_mode_for_webview_id(&mut registry, id), Ok(()));
    assert_eq!(composition_mode_enabled_for_webview_id(&registry, id), Ok(true));
}

#[test]
fn composition_mode_of_other_ids_is_kept() {
    let mut registry = CompositionModeRegistry::new();
    assert_eq!(enable_composition_mode_for_webview_id(&mut registry, "a"), Ok(()));
    assert_eq!(enable_composition_mode_for_webview_id(&mut registry, "a"), Ok(()));
    assert_eq!(enable_composition_mode_for_webview_id(&mut registry, "b"), Ok(()));
    assert_eq!(composition_mode_enabled_for_webview_id(&registry, "a"), Ok(true));
    assert_eq!(composition_mode_enabled_for_webview_id(&registry, "b"), Ok(true));
    assert_eq!(composition_mode_enabled_for_webview_id(&registry, ""), Ok(false));
}

#[test]
fn poisoned_registry_is_unavailable() {
    let mut registry = CompositionModeRegistry::new();
    assert_eq!(enable_composition_mode_for_webview_id(&mut registry, "a"), Ok(()));
    registry.poison();
    assert_eq!(
        enable_composition_mode_for_webview_id(&mut registry, "b"),
        Err(DesktopCompositionError::RegistryUnavailable)
    );
    assert_eq!(
        composition_mode_enabled_for_webview_id(&registry, "a"),
        Err(DesktopCompositionError::RegistryUnavailable)
    );
}

#[test]
fn a_window_finds_its_controller() {
    let mut states = states();
    register(&mut states, 30, state());
    assert_eq!(controller_hwnd_for_hwnd(&states, &window(10), THREAD), Ok(10));
    let parent = WindowInfo { children: vec![11, 30, 10], ..window(5) };
    assert_eq!(controller_hwnd_for_hwnd(&states, &parent, THREAD), Ok(30));
    let own = WindowInfo { children: vec![30], ..window(10) };
    assert_eq!(controller_hwnd_for_hwnd(&states, &own, THREAD), Ok(10));
}

#[test]
fn a_window_without_controller_is_refused() {
    let states = states();
    let unavailable = Err(DesktopCompositionError::ControllerUnavailable);
    assert_eq!(controller_hwnd_for_hwnd(&states, &window(0), THREAD), unavailable);
    assert_eq!(controller_hwnd_for_hwnd(&states, &window(11), THREAD), unavailable);
    let dead = WindowInfo { is_window: false, ..window(10) };
    assert_eq!(controller_hwnd_for_hwnd(&states, &dead, THREAD), unavailable);
    let orphan = WindowInfo { owner_thread: 0, ..window(10) };
    assert_eq!(controller_hwnd_for_hwnd(&states, &orphan, THREAD), unavailable);
    let parent = WindowInfo { children: vec![11, 12], ..window(5) };
    assert_eq!(controller_hwnd_for_hwnd(&states, &parent, THREAD), unavailable);
    assert_eq!(
        controller_hwnd_for_hwnd(&states, &window(10), 8),
        Err(DesktopCompositionError::WrongThread { owner: THREAD, current: 8 })
    );
}

#[test]
fn a_search_ends_with_the_first_controller() {
    let states = states();
    let mut lookup = ControllerLookup::default();
    assert_eq!(lookup.hwnd, 0);
    assert!(find_controller_child(&states, 9, &mut lookup));
    assert_eq!(lookup.hwnd, 0);
    assert!(!find_controller_child(&states, 10, &mut lookup));
    assert_eq!(lookup.hwnd, 10);
}

#[test]
fn the_controller_thread_is_checked_too() {
    let mut states = states();
    register(&mut states, 20, DesktopCompositionState { owner_thread: 9, ..state() });
    let wrong = DesktopCompositionError::WrongThread { owner: 9, current: THREAD };
    assert_eq!(
        desktop_composition_ready_for_hwnd(&states, &window(20), THREAD),
        Err(wrong.clone())
    );
    assert_eq!(
        detach_desktop_composition_for_hwnd(&mut states, &window(20), THREAD),
        Err(wrong.clone())
    );
    assert_eq!(desktop_composition_ready_for_hwnd(&states, &window(10), THREAD), Ok(()));
    assert_eq!(
        desktop_composition_is_attached_to_hwnd(&states, &window(20), THREAD, 1),
        Err(wrong)
    );
}

#[test]
fn retarget_moves_the_visual() {
    let mut states = states();
    assert!(!attached(&states, 20));
    let begun = begin_retarget(&states, 20, 30);
    let (calls, result) = drive(begun, &mut states, &[Ok(()), Ok(()), Ok(())]);
    assert_eq!(result, Ok(()));
    assert_eq!(
        calls,
        vec![
            CompositionCall::ClearRoot { target: 3 },
            CompositionCall::SetRoot { target: 30, visual: 4 },
            CompositionCall::Commit { device: 2 },
        ]
    );
    assert!(attached(&states, 20));
    assert!(!attached(&states, 21));
    assert_eq!(
        retarget_desktop_composition_for_hwnd(&states, &window(10), THREAD, 20, true),
        Ok(Step::Done(()))
    );
    // From one presentation window to another the previous target is cleared.
    let begun = begin_retarget(&states, 21, 31);
    let (calls, result) = drive(begun, &mut states, &[Ok(()), Ok(()), Ok(())]);
    assert_eq!(result, Ok(()));
    assert_eq!(calls[0], CompositionCall::ClearRoot { target: 30 });
    assert!(attached(&states, 21));
    assert!(!attached(&states, 20));
}

#[test]
fn retarget_refuses_what_is_no_window() {
    let states = states();
    let invalid = Err(DesktopCompositionError::InvalidPresentationWindow);
    assert_eq!(
        retarget_desktop_composition_for_hwnd(&states, &window(10), THREAD, 0, true),
        invalid
    );
    assert_eq!(
        retarget_desktop_composition_for_hwnd(&states, &window(10), THREAD, 20, false),
        invalid
    );
    // The presentation window is looked at first.
    assert_eq!(
        retarget_desktop_composition_for_hwnd(&states, &window(0), 8, 20, false),
        invalid
    );
    assert_eq!(
        retarget_desktop_composition_for_hwnd(&states, &window(0), 8, 20, true),
        Err(DesktopCompositionError::ControllerUnavailable)
    );
}

#[test]
fn a_target_that_cannot_be_created_is_reported() {
    let states = states();
    match retarget_desktop_composition_for_hwnd(&states, &window(10), THREAD, 20, true) {
        Ok(Step::Pending(retarget)) => assert_eq!(
            retarget.next(Err("E".to_string())),
            Err(DesktopCompositionError::OperationFailed(
                "CreateTargetForHwnd failed: E".to_string()
            ))
        ),
        other => panic!("{other:?}"),
    }
}

#[test]
fn a_failed_retarget_puts_the_visual_back() {
    let undo = [
        CompositionCall::ClearRoot { target: 30 },
        CompositionCall::SetRoot { target: 3, visual: 4 },
        CompositionCall::Commit { device: 2 },
    ];
    for fails_at_commit in [false, true] {
        let mut states = states();
        let begun = begin_retarget(&states, 20, 30);
        let mut replies = vec![Ok(())];
        if fails_at_commit {
            replies.push(Ok(()));
        }
        replies.extend([Err("E"), Ok(()), Ok(()), Ok(())]);
        let (calls, result) = drive(begun, &mut states, &replies);
        assert_eq!(result, failed("attaching the presentation target failed: E"));
        assert_eq!(calls[calls.len() - 3..], undo);
        assert!(!attached(&states, 20));
        assert_eq!(states.get(10), Some(&state()));
    }
}

#[test]
fn a_failed_restoration_is_reported_too() {
    let message = "attaching the presentation target failed: E; restoring the last committed \
                   target also failed: R";
    for restored in 0..3 {
        let mut states = states();
        let begun = begin_retarget(&states, 20, 30);
        let mut replies = vec![Ok(()), Err("E")];
        for _ in 0..restored {
            replies.push(Ok(()));
        }
        replies.push(Err("R"));
        let (_, result) = drive(begun, &mut states, &replies);
        assert_eq!(result, failed(message));
        assert_eq!(states.get(10), Some(&state()));
    }
}

#[test]
fn a_target_that_cannot_be_cleared_ends_the_move() {
    let mut states = states();
    let begun = begin_retarget(&states, 20, 30);
    let (calls, result) = drive(begun, &mut states, &[Err("E")]);
    assert_eq!(calls.len(), 1);
    assert_eq!(result, failed("clearing the previous composition target failed: E"));
}

#[test]
fn detach_parks_the_visual() {
    let mut states = states();
    assert_eq!(
        detach_desktop_composition_for_hwnd(&mut states, &window(10), THREAD),
        Ok(Step::Done(()))
    );
    let begun = begin_retarget(&states, 20, 30);
    assert_eq!(drive(begun, &mut states, &[Ok(()), Ok(()), Ok(())]).1, Ok(()));
    let begun = begin_detach(&mut states);
    let (calls, result) = drive(begun, &mut states, &[Ok(()), Ok(()), Ok(())]);
    assert_eq!(result, Ok(()));
    assert_eq!(
        calls,
        vec![
            CompositionCall::ClearRoot { target: 30 },
            CompositionCall::SetRoot { target: 3, visual: 4 },
            CompositionCall::Commit { device: 2 },
        ]
    );
    assert_eq!(states.get(10), Some(&state()));
    assert_eq!(
        detach_desktop_composition_for_hwnd(&mut states, &window(10), THREAD),
        Ok(Step::Done(()))
    );
}

#[test]
fn a_failed_detachment_is_reported() {
    let mut states = states();
    let begun = begin_retarget(&states, 20, 30);
    assert_eq!(drive(begun, &mut states, &[Ok(()), Ok(()), Ok(())]).1, Ok(()));
    let begun = begin_detach(&mut states);
    assert_eq!(
        drive(begun, &mut states, &[Err("E")]).1,
        failed("detaching the presentation target failed: E")
    );
    let begun = begin_detach(&mut states);
    let (calls, result) = drive(begun, &mut states, &[Ok(()), Err("E"), Ok(()), Ok(()), Ok(())]);
    assert_eq!(result, failed("restoring the parking target failed: E"));
    assert_eq!(
        calls[2..],
        [
            CompositionCall::ClearRoot { target: 3 },
            CompositionCall::SetRoot { target: 30, visual: 4 },
            CompositionCall::Commit { device: 2 },
        ]
    );
    assert!(attached(&states, 20));
    assert_eq!(
        detach_desktop_composition_for_hwnd(&mut states, &window(0), THREAD),
        Err(DesktopCompositionError::ControllerUnavailable)
    );
}

#[test]
fn a_target_out_of_use_is_known() {
    assert!(state().uses_target(3));
    assert!(!state().uses_target(30));
    let mut states = states();
    let begun = begin_retarget(&states, 20, 30);
    assert_eq!(drive(begun, &mut states, &[Ok(()), Ok(()), Ok(())]).1, Ok(()));
    let begun = begin_retarget(&states, 21, 31);
    assert_eq!(drive(begun, &mut states, &[Ok(()), Ok(()), Ok(())]).1, Ok(()));
    let presented = states.get(10).unwrap();
    assert!(presented.uses_target(3));
    assert!(presented.uses_target(31));
    assert!(!presented.uses_target(30));
}

#[test]
fn transition_errors_name_both_failures() {
    assert_eq!(Err(transition_error("op", "E", Ok(()))), failed("op: E"));
    assert_eq!(
        Err(transition_error("op", "E", Err("R".to_string()))),
        failed("op: E; restoring the last committed target also failed: R")
    );
}

fn prepared() -> PreparedDesktopComposition {
    PreparedDesktopComposition { controller_hwnd: 10, controller: 9, state: state() }
}

#[test]
fn a_controller_is_registered_once_and_released_on_its_thread() {
    assert_eq!(prepared().controller(), 9);
    let mut states = CompositionStates::new();
    assert_eq!(
        prepared().register(&mut states, 8).err(),
        Some(DesktopCompositionError::WrongThread { owner: THREAD, current: 8 })
    );
    assert!(!states.contains(10));
    let registration = prepared().register(&mut states, THREAD).unwrap();
    assert_eq!(states.get(10), Some(&state()));
    assert_eq!(
        prepared().register(&mut states, THREAD).err(),
        Some(DesktopCompositionError::ControllerAlreadyRegistered)
    );
    assert_eq!(registration.release(&mut states, 8), None);
    assert!(states.contains(10));
    assert_eq!(registration.release(&mut states, THREAD), Some(state()));
    assert!(!states.contains(10));
    assert_eq!(registration.release(&mut states, THREAD), None);
}

#[test]
fn controllers_stay_with_the_thread_of_their_table() {
    let mut states = states();
    register(&mut states, 11, state());
    let owners = |states: &CompositionStates| {
        [10, 11].map(|hwnd| states.get(hwnd).map(|state| state.owner_thread))
    };
    assert_eq!(owners(&states), [Some(THREAD), Some(THREAD)]);
    let begun = begin_retarget(&states, 20, 30);
    assert_eq!(drive(begun, &mut states, &[Ok(()), Ok(()), Ok(())]).1, Ok(()));
    assert_eq!(owners(&states), [Some(THREAD), Some(THREAD)]);
    let begun = begin_detach(&mut states);
    assert_eq!(drive(begun, &mut states, &[Ok(()), Ok(()), Ok(())]).1, Ok(()));
    assert_eq!(
        detach_desktop_composition_for_hwnd(&mut states, &window(10), THREAD),
        Ok(Step::Done(()))
    );
    assert_eq!(owners(&states), [Some(THREAD), Some(THREAD)]);
    // A controller that is found may then be worked on.
    for window in [window(10), window(11), WindowInfo { children: vec![5, 11], ..window(4) }] {
        assert!(controller_hwnd_for_hwnd(&states, &window, THREAD).is_ok());
        assert_eq!(desktop_composition_ready_for_hwnd(&states, &window, THREAD), Ok(()));
    }
}

#[test]
fn children_are_needed_by_a_live_window_without_controller() {
    let states = states();
    assert!(needs_children(&states, &window(11), THREAD));
    assert!(!needs_children(&states, &window(10), THREAD));
    assert!(!needs_children(&states, &window(0), THREAD));
    assert!(!needs_children(&states, &window(11), 8));
    let dead = WindowInfo { is_window: false, ..window(11) };
    assert!(!needs_children(&states, &dead, THREAD));
    let orphan = WindowInfo { owner_thread: 0, ..window(11) };
    assert!(!needs_children(&states, &orphan, 0));
    let cut = WindowInfo { children: vec![12, 10], ..window(11) };
    let whole = WindowInfo { children: vec![12, 10, 13], ..window(11) };
    assert_eq!(controller_hwnd_for_hwnd(&states, &cut, THREAD), Ok(10));
    assert_eq!(controller_hwnd_for_hwnd(&states, &whole, THREAD), Ok(10));
}
