//! The operations of the desktop-composition host.

use crate::error;
use crate::error::DesktopCompositionError;
use crate::error::ErrorView;
use crate::state;
use crate::state::CompositionStates;
use crate::state::DesktopCompositionState;
use crate::step::Step;
use crate::transition;
use crate::transition::MovePhase;
use crate::transition::MoveView;
use crate::transition::Retarget;
use crate::transition::VisualMove;
use crate::window;
use crate::window::WindowInfo;
use vstd::prelude::*;

verus! {

/// What is answered to the question whether a controller exists.
pub open spec fn readiness(
    states: Map<isize, DesktopCompositionState>,
    controller: WindowInfo,
    current_thread: u32,
) -> Result<(), ErrorView> {
    match window::located(states, controller, current_thread) {
        Ok(_) => Ok(()),
        Err(error) => Err(error),
    }
}

/// What is answered to the question whether the visual is presented in a window.
pub open spec fn attachment(
    states: Map<isize, DesktopCompositionState>,
    controller: WindowInfo,
    current_thread: u32,
    presentation_hwnd: isize,
) -> Result<bool, ErrorView> {
    match window::located(states, controller, current_thread) {
        Ok(hwnd) => Ok(states[hwnd].attached_to(presentation_hwnd)),
        Err(error) => Err(error),
    }
}

/// Verify that the composition controller exists on the caller's UI thread.
pub fn desktop_composition_ready_for_hwnd(
    states: &CompositionStates,
    controller: &WindowInfo,
    current_thread: u32,
) -> (result: Result<(), DesktopCompositionError>)
    ensures
        error::outcome(result) == match window::located(states@, *controller, current_thread) {
            Ok(_) => Ok::<(), ErrorView>(()),
            Err(error) => Err(error),
        },
        error::outcome(result) == readiness(states@, *controller, current_thread),
{
    match window::with_state(states, controller, current_thread) {
        Ok(_) => Ok(()),
        Err(error) => Err(error),
    }
}

/// Report whether the visual is committed to the supplied presentation window.
pub fn desktop_composition_is_attached_to_hwnd(
    states: &CompositionStates,
    controller: &WindowInfo,
    current_thread: u32,
    presentation_hwnd: isize,
) -> (result: Result<bool, DesktopCompositionError>)
    ensures
        error::outcome(result) == match window::located(states@, *controller, current_thread) {
            Ok(hwnd) => Ok::<bool, ErrorView>(states@[hwnd].attached_to(presentation_hwnd)),
            Err(error) => Err(error),
        },
        error::outcome(result) == attachment(
            states@,
            *controller,
            current_thread,
            presentation_hwnd,
        ),
{
    match window::with_state(states, controller, current_thread) {
        Ok((_, state)) => Ok(
            state.presentation_hwnd == presentation_hwnd && state.presentation_target.is_some(),
        ),
        Err(error) => Err(error),
    }
}

/// How moving the visual to a presentation window begins: with the target of the
/// window that is to be created, or not at all where the visual is there already.
pub open spec fn retarget_begun(
    states: Map<isize, DesktopCompositionState>,
    controller: WindowInfo,
    current_thread: u32,
    presentation_hwnd: isize,
    presentation_is_window: bool,
) -> Result<Step<Retarget, ()>, ErrorView> {
    if window::invalid_handle(presentation_hwnd) || !presentation_is_window {
        Err(ErrorView::InvalidPresentationWindow)
    } else {
        match window::located(states, controller, current_thread) {
            Ok(hwnd) => if states[hwnd].attached_to(presentation_hwnd) {
                Ok(Step::Done(()))
            } else {
                Ok(
                    Step::Pending(
                        Retarget {
                            controller_hwnd: hwnd,
                            device: states[hwnd].device,
                            visual: states[hwnd].visual,
                            previous: states[hwnd].current_target(),
                            presentation_hwnd,
                        },
                    ),
                )
            },
            Err(error) => Err(error),
        }
    }
}

/// Move the existing WebView2 visual to a process-owned presentation window.
///
/// `presentation_is_window` tells whether the system knows `presentation_hwnd` as a
/// live window. The operation is done where the visual is in that window already.
pub fn retarget_desktop_composition_for_hwnd(
    states: &CompositionStates,
    controller: &WindowInfo,
    current_thread: u32,
    presentation_hwnd: isize,
    presentation_is_window: bool,
) -> (result: Result<Step<Retarget, ()>, DesktopCompositionError>)
    ensures
        error::outcome(result) == retarget_begun(
            states@,
            *controller,
            current_thread,
            presentation_hwnd,
            presentation_is_window,
        ),
{
    if window::is_invalid(presentation_hwnd) || !presentation_is_window {
        return Err(DesktopCompositionError::InvalidPresentationWindow);
    }
    let (controller_hwnd, state): (isize, &DesktopCompositionState) = match window::with_state(
        states,
        controller,
        current_thread,
    ) {
        Ok(found) => found,
        Err(error) => return Err(error),
    };
    if state.presentation_hwnd == presentation_hwnd && state.presentation_target.is_some() {
        return Ok(Step::Done(()));
    }
    let previous: isize = match state.presentation_target {
        Some(target) => target,
        None => state.parking_target,
    };
    Ok(
        Step::Pending(
            Retarget {
                controller_hwnd,
                device: state.device,
                visual: state.visual,
                previous,
                presentation_hwnd,
            },
        ),
    )
}

/// How moving the visual to its parking target begins: with the presentation target
/// that is to be cleared, or not at all where the visual is parked already.
pub open spec fn detach_begun(
    states: Map<isize, DesktopCompositionState>,
    controller: WindowInfo,
    current_thread: u32,
) -> Result<Step<MoveView, ()>, ErrorView> {
    match window::located(states, controller, current_thread) {
        Ok(hwnd) => match states[hwnd].presentation_target {
            Some(target) => Ok(
                Step::Pending(
                    MoveView {
                        controller_hwnd: hwnd,
                        device: states[hwnd].device,
                        visual: states[hwnd].visual,
                        previous: target,
                        attempted: states[hwnd].parking_target,
                        presentation_hwnd: None,
                        phase: MovePhase::ClearPrevious,
                        failure: Seq::empty(),
                    },
                ),
            ),
            None => Ok(Step::Done(())),
        },
        Err(error) => Err(error),
    }
}

/// The table after detaching has begun. Where there is nothing to move, the state is
/// recorded as parked; where there is, nothing is recorded yet.
pub open spec fn table_after_detach_begun(
    states: Map<isize, DesktopCompositionState>,
    controller: WindowInfo,
    current_thread: u32,
) -> Map<isize, DesktopCompositionState> {
    match window::located(states, controller, current_thread) {
        Ok(hwnd) => match states[hwnd].presentation_target {
            Some(_) => states,
            None => states.insert(hwnd, states[hwnd].parked()),
        },
        Err(_) => states,
    }
}

/// Return the WebView2 visual to its private parking target.
///
/// The operation is idempotent and updates logical state only after a successful
/// DirectComposition commit.
pub fn detach_desktop_composition_for_hwnd(
    states: &mut CompositionStates,
    controller: &WindowInfo,
    current_thread: u32,
) -> (result: Result<Step<VisualMove, ()>, DesktopCompositionError>)
    ensures
        match (result, detach_begun(old(states)@, *controller, current_thread)) {
            (Ok(Step::Pending(begun)), Ok(Step::Pending(expected))) => {
                &&& begun@ == expected
                &&& final(states)@ == old(states)@
            },
            (Ok(Step::Done(_)), Ok(Step::Done(_))) => {
                let hwnd = window::located(old(states)@, *controller, current_thread)->Ok_0;
                final(states)@ == old(states)@.insert(hwnd, old(states)@[hwnd].parked())
            },
            (Err(error), Err(expected)) => error@ == expected && final(states)@ == old(states)@,
            _ => false,
        },
        final(states)@ == table_after_detach_begun(old(states)@, *controller, current_thread),
{
    let (controller_hwnd, state): (isize, &mut DesktopCompositionState) =
        match window::with_state_mut(states, controller, current_thread) {
        Ok(found) => found,
        Err(error) => return Err(error),
    };
    match state.presentation_target {
        Some(previous) => {
            let begun: VisualMove = VisualMove {
                controller_hwnd,
                device: state.device,
                visual: state.visual,
                previous,
                attempted: state.parking_target,
                presentation_hwnd: None,
                phase: MovePhase::ClearPrevious,
                failure: String::new(),
            };
            Ok(Step::Pending(begun))
        },
        None => {
            state.presentation_hwnd = 0;
            Ok(Step::Done(()))
        },
    }
}

/// After a successful move to a presentation window the visual is attached to that
/// window and to no other, and moving it there again is done without a call.
pub proof fn law_retarget_is_idempotent(
    states: Map<isize, DesktopCompositionState>,
    controller: WindowInfo,
    current_thread: u32,
    presentation_hwnd: isize,
    presentation_is_window: bool,
    attempted: isize,
    replies: Seq<transition::ReplyView>,
)
    requires
        retarget_begun(
            states,
            controller,
            current_thread,
            presentation_hwnd,
            presentation_is_window,
        ) matches Ok(Step::Pending(retarget)) && transition::run(
            retarget.begun(attempted),
            replies,
        ) == Step::<MoveView, _>::Done(Ok::<(), ErrorView>(())),
    ensures
        ({
            let retarget = retarget_begun(
                states,
                controller,
                current_thread,
                presentation_hwnd,
                presentation_is_window,
            )->Ok_0->Pending_0;
            let after = transition::table_after_run(retarget.begun(attempted), states, replies);
            let hwnd = window::located(states, controller, current_thread)->Ok_0;
            &&& window::located(after, controller, current_thread) == Ok::<_, ErrorView>(hwnd)
            &&& forall|other: isize| #[trigger]
                after[hwnd].attached_to(other) <==> other == presentation_hwnd
            &&& retarget_begun(
                after,
                controller,
                current_thread,
                presentation_hwnd,
                presentation_is_window,
            ) == Ok::<_, ErrorView>(Step::<Retarget, ()>::Done(()))
        }),
{
    let retarget = retarget_begun(
        states,
        controller,
        current_thread,
        presentation_hwnd,
        presentation_is_window,
    )->Ok_0->Pending_0;
    let after = transition::table_after_run(retarget.begun(attempted), states, replies);
    transition::law_table_changes_only_by_success(retarget.begun(attempted), states, replies);
    window::law_operations_stay_on_owner_thread(states, controller, current_thread);
    assert(after.dom() =~= states.dom());
    window::law_location_is_independent_of_presentation(
        states,
        after,
        controller,
        current_thread,
    );
}

/// After a successful detachment the visual is attached to no window, and detaching
/// it again is done without a call and leaves the table as it is.
pub proof fn law_detach_is_idempotent(
    states: Map<isize, DesktopCompositionState>,
    controller: WindowInfo,
    current_thread: u32,
    replies: Seq<transition::ReplyView>,
)
    requires
        detach_begun(states, controller, current_thread) matches Ok(Step::Pending(begun))
            && transition::run(begun, replies) == Step::<MoveView, _>::Done(
            Ok::<(), ErrorView>(()),
        ),
    ensures
        ({
            let begun = detach_begun(states, controller, current_thread)->Ok_0->Pending_0;
            let after = transition::table_after_run(begun, states, replies);
            let hwnd = window::located(states, controller, current_thread)->Ok_0;
            &&& window::located(after, controller, current_thread) == Ok::<_, ErrorView>(hwnd)
            &&& forall|other: isize| !#[trigger] after[hwnd].attached_to(other)
            &&& detach_begun(after, controller, current_thread) == Ok::<_, ErrorView>(
                Step::<MoveView, ()>::Done(()),
            )
            &&& after.insert(hwnd, after[hwnd].parked()) == after
        }),
{
    let begun = detach_begun(states, controller, current_thread)->Ok_0->Pending_0;
    let after = transition::table_after_run(begun, states, replies);
    let hwnd = window::located(states, controller, current_thread)->Ok_0;
    transition::law_table_changes_only_by_success(begun, states, replies);
    window::law_operations_stay_on_owner_thread(states, controller, current_thread);
    assert(after.dom() =~= states.dom());
    window::law_location_is_independent_of_presentation(
        states,
        after,
        controller,
        current_thread,
    );
    assert(after.insert(hwnd, after[hwnd].parked()) =~= after);
}

/// Detaching a visual that is parked leaves a well-formed table as it is.
pub proof fn law_detach_of_parked_visual_changes_nothing(
    states: Map<isize, DesktopCompositionState>,
    controller: WindowInfo,
    current_thread: u32,
)
    requires
        state::all_well_formed(states),
        detach_begun(states, controller, current_thread) == Ok::<_, ErrorView>(
            Step::<MoveView, ()>::Done(()),
        ),
    ensures
        ({
            let hwnd = window::located(states, controller, current_thread)->Ok_0;
            states.insert(hwnd, states[hwnd].parked()) == states
        }),
{
    let hwnd = window::located(states, controller, current_thread)->Ok_0;
    window::law_operations_stay_on_owner_thread(states, controller, current_thread);
    assert(states[hwnd].parked() == states[hwnd]);
    assert(states.insert(hwnd, states[hwnd].parked()) =~= states);
}

/// Detaching a visual that is parked keeps every controller of the table with its
/// thread.
pub proof fn law_detach_keeps_table_on_its_thread(
    states: Map<isize, DesktopCompositionState>,
    controller: WindowInfo,
    current_thread: u32,
    thread: u32,
)
    requires
        state::all_owned_by(states, thread),
        detach_begun(states, controller, current_thread) == Ok::<_, ErrorView>(
            Step::<MoveView, ()>::Done(()),
        ),
    ensures
        ({
            let hwnd = window::located(states, controller, current_thread)->Ok_0;
            state::all_owned_by(states.insert(hwnd, states[hwnd].parked()), thread)
        }),
{
    window::law_operations_stay_on_owner_thread(states, controller, current_thread);
}

/// Presenting a parked visual in a window and detaching it again restores the
/// table, if both moves succeed.
pub proof fn law_detach_undoes_retarget(
    states: Map<isize, DesktopCompositionState>,
    controller: WindowInfo,
    current_thread: u32,
    presentation_hwnd: isize,
    attempted: isize,
    retarget_replies: Seq<transition::ReplyView>,
    detach_replies: Seq<transition::ReplyView>,
)
    requires
        state::all_well_formed(states),
        detach_begun(states, controller, current_thread) == Ok::<_, ErrorView>(
            Step::<MoveView, ()>::Done(()),
        ),
        retarget_begun(
            states,
            controller,
            current_thread,
            presentation_hwnd,
            true,
        ) matches Ok(Step::Pending(retarget)) && {
            let presented = transition::table_after_run(
                retarget.begun(attempted),
                states,
                retarget_replies,
            );
            &&& transition::run(retarget.begun(attempted), retarget_replies) == Step::<
                MoveView,
                _,
            >::Done(Ok::<(), ErrorView>(()))
            &&& detach_begun(presented, controller, current_thread) matches Ok(
                Step::Pending(begun),
            ) && transition::run(begun, detach_replies) == Step::<MoveView, _>::Done(
                Ok::<(), ErrorView>(()),
            )
        },
    ensures
        ({
            let retarget = retarget_begun(
                states,
                controller,
                current_thread,
                presentation_hwnd,
                true,
            )->Ok_0->Pending_0;
            let presented = transition::table_after_run(
                retarget.begun(attempted),
                states,
                retarget_replies,
            );
            let begun = detach_begun(presented, controller, current_thread)->Ok_0->Pending_0;
            transition::table_after_run(begun, presented, detach_replies) == states
        }),
{
    let hwnd = window::located(states, controller, current_thread)->Ok_0;
    let retarget = retarget_begun(
        states,
        controller,
        current_thread,
        presentation_hwnd,
        true,
    )->Ok_0->Pending_0;
    let presented = transition::table_after_run(
        retarget.begun(attempted),
        states,
        retarget_replies,
    );
    let begun = detach_begun(presented, controller, current_thread)->Ok_0->Pending_0;
    transition::law_table_changes_only_by_success(
        retarget.begun(attempted),
        states,
        retarget_replies,
    );
    transition::law_table_changes_only_by_success(begun, presented, detach_replies);
    window::law_operations_stay_on_owner_thread(states, controller, current_thread);
    assert(presented.dom() =~= states.dom());
    window::law_location_is_independent_of_presentation(
        states,
        presented,
        controller,
        current_thread,
    );
    assert(presented[hwnd].parked() == states[hwnd]);
    assert(transition::table_after_run(begun, presented, detach_replies) =~= states);
}

/// A controller is ready exactly if it is located, and its visual is said to be in a
/// window exactly if its state records that window together with a target.
pub proof fn law_answers_follow_located_state(
    states: Map<isize, DesktopCompositionState>,
    controller: WindowInfo,
    current_thread: u32,
    presentation_hwnd: isize,
)
    ensures
        match window::located(states, controller, current_thread) {
            Ok(hwnd) => {
                &&& readiness(states, controller, current_thread) == Ok::<(), ErrorView>(())
                &&& attachment(states, controller, current_thread, presentation_hwnd) == Ok::<
                    bool,
                    ErrorView,
                >(
                    states[hwnd].presentation_hwnd == presentation_hwnd
                        && states[hwnd].presentation_target is Some,
                )
            },
            Err(error) => {
                &&& readiness(states, controller, current_thread) == Err::<(), _>(error)
                &&& attachment(states, controller, current_thread, presentation_hwnd) == Err::<
                    bool,
                    _,
                >(error)
            },
        },
{
}

/// Moving a visual to a live window ends without a call exactly if the located state
/// records that very window together with a target. In every other case the target of
/// that window is created with the device of the located state, and the visual of that
/// state is to leave the target that it is in: the presentation target if there is one,
/// else the parking target.
pub proof fn law_retarget_moves_the_located_visual(
    states: Map<isize, DesktopCompositionState>,
    controller: WindowInfo,
    current_thread: u32,
    presentation_hwnd: isize,
    hwnd: isize,
)
    requires
        presentation_hwnd != 0,
        window::located(states, controller, current_thread) == Ok::<isize, ErrorView>(hwnd),
    ensures
        ({
            let begun = retarget_begun(states, controller, current_thread, presentation_hwnd, true);
            let state = states[hwnd];
            let there = state.presentation_hwnd == presentation_hwnd
                && state.presentation_target is Some;
            &&& begun is Ok
            &&& begun == Ok::<_, ErrorView>(Step::<Retarget, ()>::Done(())) <==> there
            &&& !there ==> (begun matches Ok(Step::Pending(retarget)) && {
                &&& retarget.controller_hwnd == hwnd
                &&& retarget.device == state.device
                &&& retarget.visual == state.visual
                &&& retarget.presentation_hwnd == presentation_hwnd
                &&& state.presentation_target is Some ==> state.presentation_target == Some(
                    retarget.previous,
                )
                &&& state.presentation_target is None ==> retarget.previous == state.parking_target
                &&& retarget.pending_call() == (
                transition::CompositionCall::CreateTargetForHwnd {
                    device: state.device,
                    hwnd: presentation_hwnd,
                    topmost: true,
                })
            })
        }),
{
}

/// Moving a visual is refused exactly for a presentation window that is not live, which
/// is looked at first, and where no controller is located.
pub proof fn law_retarget_is_refused_exactly(
    states: Map<isize, DesktopCompositionState>,
    controller: WindowInfo,
    current_thread: u32,
    presentation_hwnd: isize,
    presentation_is_window: bool,
)
    ensures
        ({
            let begun = retarget_begun(
                states,
                controller,
                current_thread,
                presentation_hwnd,
                presentation_is_window,
            );
            &&& presentation_hwnd == 0 || !presentation_is_window ==> begun == Err::<
                Step<Retarget, ()>,
                _,
            >(ErrorView::InvalidPresentationWindow)
            &&& presentation_hwnd != 0 && presentation_is_window ==> match window::located(
                states,
                controller,
                current_thread,
            ) {
                Ok(_) => begun is Ok,
                Err(error) => begun == Err::<Step<Retarget, ()>, _>(error),
            }
        }),
{
}

/// Moving a visual to a window that it is not in, from its beginning to its end: if
/// every call succeeds, the visual is taken from the target that it is in and put on the
/// target of the new window, it is shown there alone, and the table says so.
pub proof fn law_retarget_shows_visual_in_its_window(
    states: Map<isize, DesktopCompositionState>,
    controller: WindowInfo,
    current_thread: u32,
    presentation_hwnd: isize,
    hwnd: isize,
    present: isize,
    attempted: isize,
    replies: Seq<transition::ReplyView>,
)
    requires
        presentation_hwnd != 0,
        window::located(states, controller, current_thread) == Ok::<isize, ErrorView>(hwnd),
        !(states[hwnd].presentation_hwnd == presentation_hwnd
            && states[hwnd].presentation_target is Some),
        match states[hwnd].presentation_target {
            Some(target) => present == target,
            None => present == states[hwnd].parking_target,
        },
        attempted != present,
        replies == seq![Ok::<(), Seq<char>>(()), Ok(()), Ok(())],
    ensures
        retarget_begun(
            states,
            controller,
            current_thread,
            presentation_hwnd,
            true,
        ) matches Ok(Step::Pending(retarget)) && {
            let begun = retarget.begun(attempted);
            let table = transition::table_after_run(begun, states, replies);
            &&& transition::run(begun, replies) == Step::<MoveView, _>::Done(
                Ok::<(), ErrorView>(()),
            )
            &&& transition::calls_made(begun, replies) == seq![
                transition::CompositionCall::ClearRoot { target: present },
                transition::CompositionCall::SetRoot {
                    target: attempted,
                    visual: states[hwnd].visual,
                },
                transition::CompositionCall::Commit { device: states[hwnd].device },
            ]
            &&& transition::placement_after_run(
                begun,
                transition::Placement::on(present),
                replies,
            ).committed == set![attempted]
            &&& table[hwnd].presentation_hwnd == presentation_hwnd
            &&& table[hwnd].presentation_target == Some(attempted)
        },
{
    let retarget = retarget_begun(
        states,
        controller,
        current_thread,
        presentation_hwnd,
        true,
    )->Ok_0->Pending_0;
    let begun = retarget.begun(attempted);
    window::law_operations_stay_on_owner_thread(states, controller, current_thread);
    transition::law_move_succeeds_by_three_calls(begun, replies);
    transition::law_visual_is_shown_in_one_target(begun, replies);
    transition::law_success_is_recorded(begun, states, replies, hwnd);
}

/// Detaching ends without a call exactly if the located state records no presentation
/// target. In every other case the visual of that state leaves the very target that is
/// recorded, for the parking target of the state.
pub proof fn law_detach_moves_the_located_visual(
    states: Map<isize, DesktopCompositionState>,
    controller: WindowInfo,
    current_thread: u32,
    hwnd: isize,
)
    requires
        window::located(states, controller, current_thread) == Ok::<isize, ErrorView>(hwnd),
    ensures
        match states[hwnd].presentation_target {
            Some(target) => detach_begun(states, controller, current_thread) matches Ok(
                Step::Pending(begun),
            ) && {
                &&& begun.controller_hwnd == hwnd
                &&& begun.device == states[hwnd].device
                &&& begun.visual == states[hwnd].visual
                &&& begun.previous == target
                &&& begun.attempted == states[hwnd].parking_target
                &&& begun.presentation_hwnd is None
                &&& begun.phase == MovePhase::ClearPrevious
            },
            None => detach_begun(states, controller, current_thread) == Ok::<_, ErrorView>(
                Step::<MoveView, ()>::Done(()),
            ),
        },
{
}

/// Detaching is refused exactly where no controller is located.
pub proof fn law_detach_is_refused_exactly(
    states: Map<isize, DesktopCompositionState>,
    controller: WindowInfo,
    current_thread: u32,
)
    ensures
        match window::located(states, controller, current_thread) {
            Ok(_) => detach_begun(states, controller, current_thread) is Ok,
            Err(error) => detach_begun(states, controller, current_thread) == Err::<
                Step<MoveView, ()>,
                _,
            >(error),
        },
{
}

/// Detaching a visual that is presented, from its beginning to its end: if every call
/// succeeds, the visual is taken from its presentation target and put on the parking
/// target, it is shown there alone, and the table says so.
pub proof fn law_detach_parks_the_visual(
    states: Map<isize, DesktopCompositionState>,
    controller: WindowInfo,
    current_thread: u32,
    hwnd: isize,
    target: isize,
    replies: Seq<transition::ReplyView>,
)
    requires
        window::located(states, controller, current_thread) == Ok::<isize, ErrorView>(hwnd),
        states[hwnd].presentation_target == Some(target),
        target != states[hwnd].parking_target,
        replies == seq![Ok::<(), Seq<char>>(()), Ok(()), Ok(())],
    ensures
        detach_begun(states, controller, current_thread) matches Ok(Step::Pending(begun)) && {
            let table = transition::table_after_run(begun, states, replies);
            &&& transition::run(begun, replies) == Step::<MoveView, _>::Done(
                Ok::<(), ErrorView>(()),
            )
            &&& transition::calls_made(begun, replies) == seq![
                transition::CompositionCall::ClearRoot { target },
                transition::CompositionCall::SetRoot {
                    target: states[hwnd].parking_target,
                    visual: states[hwnd].visual,
                },
                transition::CompositionCall::Commit { device: states[hwnd].device },
            ]
            &&& transition::placement_after_run(
                begun,
                transition::Placement::on(target),
                replies,
            ).committed == set![states[hwnd].parking_target]
            &&& table[hwnd].presentation_hwnd == 0
            &&& table[hwnd].presentation_target is None
        },
{
    let begun = detach_begun(states, controller, current_thread)->Ok_0->Pending_0;
    window::law_operations_stay_on_owner_thread(states, controller, current_thread);
    transition::law_move_succeeds_by_three_calls(begun, replies);
    transition::law_visual_is_shown_in_one_target(begun, replies);
    transition::law_success_is_recorded(begun, states, replies, hwnd);
}

/// Whether a controller is named by its own window or by a parent is of no consequence
/// for what is done with it.
pub proof fn law_operations_depend_on_located_controller_alone(
    states: Map<isize, DesktopCompositionState>,
    controller: WindowInfo,
    own: WindowInfo,
    current_thread: u32,
    presentation_hwnd: isize,
    presentation_is_window: bool,
)
    requires
        window::located(states, controller, current_thread) == Ok::<isize, ErrorView>(own.hwnd),
        own.is_window,
        own.owner_thread == current_thread,
    ensures
        readiness(states, controller, current_thread) == readiness(states, own, current_thread),
        attachment(states, controller, current_thread, presentation_hwnd) == attachment(
            states,
            own,
            current_thread,
            presentation_hwnd,
        ),
        retarget_begun(
            states,
            controller,
            current_thread,
            presentation_hwnd,
            presentation_is_window,
        ) == retarget_begun(
            states,
            own,
            current_thread,
            presentation_hwnd,
            presentation_is_window,
        ),
        detach_begun(states, controller, current_thread) == detach_begun(
            states,
            own,
            current_thread,
        ),
{
    window::law_located_controller_is_located_by_its_window(
        states,
        controller,
        own,
        current_thread,
    );
}

/// Beginning to detach forgets the presentation window of a located state without a
/// presentation target, and changes nothing else.
pub proof fn law_beginning_to_detach_keeps_the_table(
    states: Map<isize, DesktopCompositionState>,
    controller: WindowInfo,
    current_thread: u32,
    other: isize,
)
    ensures
        ({
            let after = table_after_detach_begun(states, controller, current_thread);
            match window::located(states, controller, current_thread) {
                Ok(hwnd) => {
                    &&& after.dom() == states.dom()
                    &&& other != hwnd ==> after[other] == states[other]
                    &&& states[hwnd].presentation_target is Some ==> after == states
                    &&& states[hwnd].presentation_target is None ==> after[hwnd] == (
                    DesktopCompositionState { presentation_hwnd: 0, ..states[hwnd] })
                },
                Err(_) => after == states,
            }
        }),
{
    window::law_operations_stay_on_owner_thread(states, controller, current_thread);
    assert(table_after_detach_begun(states, controller, current_thread).dom() =~= states.dom());
}

} // verus!
