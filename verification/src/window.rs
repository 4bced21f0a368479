//! From a window to the composition controller that it belongs to.

use crate::error;
use crate::error::DesktopCompositionError;
use crate::error::ErrorView;
use crate::state;
use crate::state::CompositionStates;
use crate::state::DesktopCompositionState;
use vstd::prelude::*;

verus! {

/// What the system reports of a window.
#[derive(Debug, Clone, PartialEq, Eq)]
pub struct WindowInfo {
    /// The handle that was asked about.
    pub hwnd: isize,
    /// The handle identifies a live window.
    pub is_window: bool,
    /// The thread that created the window, or 0 if the system knows none.
    pub owner_thread: u32,
    /// The child windows, in the order in which the system enumerates them. Those
    /// behind the first one with a controller may be left out.
    pub children: Vec<isize>,
}

/// The outcome of a search through child windows. The handle is 0 as long as no
/// controller was found.
#[derive(Debug, Clone, Copy, PartialEq, Eq)]
pub struct ControllerLookup {
    pub hwnd: isize,
}

impl Default for ControllerLookup {
    fn default() -> (result: Self)
        ensures
            result.hwnd == 0,
    {
        ControllerLookup { hwnd: 0 }
    }
}

/// A window handle that cannot be the handle of any window.
pub open spec fn invalid_handle(hwnd: isize) -> bool {
    hwnd == 0
}

/// Whether a window handle cannot be the handle of any window.
pub fn is_invalid(hwnd: isize) -> (result: bool)
    ensures
        result == invalid_handle(hwnd),
{
    hwnd == 0
}

/// Only the owner thread may operate on a controller.
pub open spec fn thread_check(owner: u32, current: u32) -> Result<(), ErrorView> {
    if owner == current {
        Ok(())
    } else {
        Err(ErrorView::WrongThread { owner, current })
    }
}

/// The first window of `children` that a controller is registered for.
pub open spec fn first_registered(
    states: Map<isize, DesktopCompositionState>,
    children: Seq<isize>,
) -> Option<isize>
    decreases children.len(),
{
    if children.len() == 0 {
        None
    } else if states.contains_key(children[0]) {
        Some(children[0])
    } else {
        first_registered(states, children.skip(1))
    }
}

/// The controller window that `window` belongs to: the window itself, or the first
/// of its children that a controller is registered for.
pub open spec fn controller_of(
    states: Map<isize, DesktopCompositionState>,
    window: WindowInfo,
    current_thread: u32,
) -> Result<isize, ErrorView> {
    if invalid_handle(window.hwnd) || !window.is_window || window.owner_thread == 0 {
        Err(ErrorView::ControllerUnavailable)
    } else if window.owner_thread != current_thread {
        Err(ErrorView::WrongThread { owner: window.owner_thread, current: current_thread })
    } else if states.contains_key(window.hwnd) {
        Ok(window.hwnd)
    } else {
        match first_registered(states, window.children@) {
            Some(hwnd) if hwnd != 0 => Ok(hwnd),
            _ => Err(ErrorView::ControllerUnavailable),
        }
    }
}

/// The controller of `window` is looked for among the children of the window: the
/// window is a live one of this thread, and has no controller itself.
pub open spec fn searched(
    states: Map<isize, DesktopCompositionState>,
    window: WindowInfo,
    current_thread: u32,
) -> bool {
    &&& !invalid_handle(window.hwnd)
    &&& window.is_window
    &&& window.owner_thread != 0
    &&& window.owner_thread == current_thread
    &&& !states.contains_key(window.hwnd)
}

/// The controller window that an operation on `window` may work on from
/// `current_thread`.
pub open spec fn located(
    states: Map<isize, DesktopCompositionState>,
    window: WindowInfo,
    current_thread: u32,
) -> Result<isize, ErrorView> {
    match controller_of(states, window, current_thread) {
        Ok(hwnd) => match thread_check(states[hwnd].owner_thread, current_thread) {
            Ok(_) => Ok(hwnd),
            Err(error) => Err(error),
        },
        Err(error) => Err(error),
    }
}

/// Rejects a thread that is not the owner.
pub fn ensure_owner_thread(owner: u32, current: u32) -> (result: Result<
    (),
    DesktopCompositionError,
>)
    ensures
        error::outcome(result) == thread_check(owner, current),
        result == if owner == current {
            Ok(())
        } else {
            Err(DesktopCompositionError::WrongThread { owner, current })
        },
{
    if owner == current {
        Ok(())
    } else {
        Err(DesktopCompositionError::WrongThread { owner, current })
    }
}

/// Visits the child window `hwnd` in a search for a controller. Returns whether the
/// search goes on; it ends with the first window that a controller is registered
/// for, which `lookup` then holds.
pub fn find_controller_child(
    states: &CompositionStates,
    hwnd: isize,
    lookup: &mut ControllerLookup,
) -> (go_on: bool)
    ensures
        go_on == !states@.contains_key(hwnd),
        final(lookup).hwnd == if go_on {
            old(lookup).hwnd
        } else {
            hwnd
        },
{
    if states.contains(hwnd) {
        lookup.hwnd = hwnd;
        return false;
    }
    true
}

/// Whether the controller of `window` is looked for among the children of the window,
/// so that they have to be enumerated.
pub fn needs_children(
    states: &CompositionStates,
    window: &WindowInfo,
    current_thread: u32,
) -> (result: bool)
    ensures
        result == searched(states@, *window, current_thread),
{
    !is_invalid(window.hwnd) && window.is_window && window.owner_thread != 0
        && window.owner_thread == current_thread && !states.contains(window.hwnd)
}

/// The controller window that `window` belongs to.
pub fn controller_hwnd_for_hwnd(
    states: &CompositionStates,
    window: &WindowInfo,
    current_thread: u32,
) -> (result: Result<isize, DesktopCompositionError>)
    ensures
        error::outcome(result) == controller_of(states@, *window, current_thread),
{
    if is_invalid(window.hwnd) || !window.is_window {
        return Err(DesktopCompositionError::ControllerUnavailable);
    }
    if window.owner_thread == 0 {
        return Err(DesktopCompositionError::ControllerUnavailable);
    }
    match ensure_owner_thread(window.owner_thread, current_thread) {
        Ok(()) => {},
        Err(error) => return Err(error),
    }
    if states.contains(window.hwnd) {
        return Ok(window.hwnd);
    }
    let mut lookup: ControllerLookup = ControllerLookup::default();
    let mut go_on: bool = true;
    let mut i: usize = 0;
    assert(window.children@.skip(0) =~= window.children@);
    while go_on && i < window.children.len()
        invariant
            i <= window.children@.len(),
            go_on ==> lookup.hwnd == 0 && first_registered(states@, window.children@)
                == first_registered(states@, window.children@.skip(i as int)),
            !go_on ==> first_registered(states@, window.children@) == Some(lookup.hwnd),
        decreases window.children@.len() - i,
    {
        assert(window.children@.skip(i as int).skip(1) =~= window.children@.skip(i + 1));
        go_on = find_controller_child(states, window.children[i], &mut lookup);
        i += 1;
    }
    if lookup.hwnd != 0 {
        Ok(lookup.hwnd)
    } else {
        Err(DesktopCompositionError::ControllerUnavailable)
    }
}

/// The controller window and the state that an operation on `window` reads.
pub(crate) fn with_state<'a>(
    states: &'a CompositionStates,
    window: &WindowInfo,
    current_thread: u32,
) -> (result: Result<(isize, &'a DesktopCompositionState), DesktopCompositionError>)
    ensures
        match (result, located(states@, *window, current_thread)) {
            (Ok((found, state)), Ok(hwnd)) => {
                &&& found == hwnd
                &&& states@.contains_key(hwnd)
                &&& *state == states@[hwnd]
            },
            (Err(error), Err(expected)) => error@ == expected,
            _ => false,
        },
{
    proof {
        lemma_controller_is_registered(states@, *window, current_thread);
    }
    let hwnd: isize = match controller_hwnd_for_hwnd(states, window, current_thread) {
        Ok(hwnd) => hwnd,
        Err(error) => return Err(error),
    };
    match states.get(hwnd) {
        Some(state) => match ensure_owner_thread(state.owner_thread, current_thread) {
            Ok(()) => Ok((hwnd, state)),
            Err(error) => Err(error),
        },
        None => Err(DesktopCompositionError::ControllerUnavailable),
    }
}

/// The controller window and the state that an operation on `window` changes.
pub(crate) fn with_state_mut<'a>(
    states: &'a mut CompositionStates,
    window: &WindowInfo,
    current_thread: u32,
) -> (result: Result<(isize, &'a mut DesktopCompositionState), DesktopCompositionError>)
    ensures
        match (result, located(old(states)@, *window, current_thread)) {
            (Ok((found, state)), Ok(hwnd)) => {
                &&& found == hwnd
                &&& old(states)@.contains_key(hwnd)
                &&& *state == old(states)@[hwnd]
                &&& final(states)@ == old(states)@.insert(hwnd, *final(state))
            },
            (Err(error), Err(expected)) => error@ == expected && final(states)@ == old(states)@,
            _ => false,
        },
{
    proof {
        lemma_controller_is_registered(states@, *window, current_thread);
    }
    let hwnd: isize = match controller_hwnd_for_hwnd(states, window, current_thread) {
        Ok(hwnd) => hwnd,
        Err(error) => return Err(error),
    };
    let owner: u32 = match states.get(hwnd) {
        Some(state) => state.owner_thread,
        None => return Err(DesktopCompositionError::ControllerUnavailable),
    };
    match ensure_owner_thread(owner, current_thread) {
        Ok(()) => {},
        Err(error) => return Err(error),
    }
    match states.get_mut(hwnd) {
        Some(state) => Ok((hwnd, state)),
        None => Err(DesktopCompositionError::ControllerUnavailable),
    }
}

/// A search through child windows finds the first one that a controller is
/// registered for, and finds none only where there is none.
pub proof fn law_search_finds_first_registered_child(
    states: Map<isize, DesktopCompositionState>,
    children: Seq<isize>,
)
    ensures
        match first_registered(states, children) {
            Some(hwnd) => exists|i: int|
                {
                    &&& 0 <= i < children.len()
                    &&& #[trigger] children[i] == hwnd
                    &&& states.contains_key(hwnd)
                    &&& forall|j: int| 0 <= j < i ==> !states.contains_key(#[trigger] children[j])
                },
            None => forall|j: int|
                0 <= j < children.len() ==> !states.contains_key(#[trigger] children[j]),
        },
    decreases children.len(),
{
    if children.len() > 0 {
        if states.contains_key(children[0]) {
            assert(children[0] == first_registered(states, children)->0);
        } else {
            let rest = children.skip(1);
            law_search_finds_first_registered_child(states, rest);
            assert forall|j: int| 0 < j < children.len() implies #[trigger] children[j] == rest[j
                - 1] by {}
            match first_registered(states, rest) {
                Some(hwnd) => {
                    let i = choose|i: int|
                        {
                            &&& 0 <= i < rest.len()
                            &&& #[trigger] rest[i] == hwnd
                            &&& states.contains_key(hwnd)
                            &&& forall|j: int|
                                0 <= j < i ==> !states.contains_key(#[trigger] rest[j])
                        };
                    assert(children[i + 1] == hwnd);
                },
                None => {},
            }
        }
    }
}

/// A controller that was found is registered.
proof fn lemma_controller_is_registered(
    states: Map<isize, DesktopCompositionState>,
    window: WindowInfo,
    current_thread: u32,
)
    ensures
        controller_of(states, window, current_thread) matches Ok(hwnd) ==> states.contains_key(
            hwnd,
        ),
{
    law_search_finds_first_registered_child(states, window.children@);
}

/// An operation works on a registered controller only, and only from the thread
/// that owns both the window it was called for and the controller.
pub proof fn law_operations_stay_on_owner_thread(
    states: Map<isize, DesktopCompositionState>,
    window: WindowInfo,
    current_thread: u32,
)
    ensures
        located(states, window, current_thread) matches Ok(hwnd) ==> {
            &&& states.contains_key(hwnd)
            &&& states[hwnd].owner_thread == current_thread
            &&& window.owner_thread == current_thread
            &&& window.is_window
        },
{
    lemma_controller_is_registered(states, window, current_thread);
}

/// On the thread that a table belongs to, a controller that was found may be worked
/// on: its own thread is never another one.
pub proof fn law_found_controller_is_on_table_thread(
    states: Map<isize, DesktopCompositionState>,
    window: WindowInfo,
    thread: u32,
)
    requires
        state::all_owned_by(states, thread),
    ensures
        located(states, window, thread) == controller_of(states, window, thread),
{
    lemma_controller_is_registered(states, window, thread);
}

/// A search ends with the first controller that it finds: windows behind that one
/// are of no consequence.
pub proof fn law_search_ends_with_first_registered_child(
    states: Map<isize, DesktopCompositionState>,
    children: Seq<isize>,
    behind: Seq<isize>,
)
    requires
        first_registered(states, children) is Some,
    ensures
        first_registered(states, children + behind) == first_registered(states, children),
    decreases children.len(),
{
    if !states.contains_key(children[0]) {
        law_search_ends_with_first_registered_child(states, children.skip(1), behind);
        assert((children + behind).skip(1) =~= children.skip(1) + behind);
    }
}

/// The children of a window are of no consequence where they are not searched.
pub proof fn law_children_count_in_a_search_alone(
    states: Map<isize, DesktopCompositionState>,
    window: WindowInfo,
    children: Vec<isize>,
    current_thread: u32,
)
    requires
        !searched(states, window, current_thread),
    ensures
        controller_of(states, window, current_thread) == controller_of(
            states,
            WindowInfo { children, ..window },
            current_thread,
        ),
{
}

/// Two tables with the same controllers on the same threads.
pub open spec fn same_controllers(
    states: Map<isize, DesktopCompositionState>,
    others: Map<isize, DesktopCompositionState>,
) -> bool {
    &&& states.dom() == others.dom()
    &&& forall|hwnd: isize| #[trigger]
        states.contains_key(hwnd) ==> states[hwnd].owner_thread == others[hwnd].owner_thread
}

/// The search depends on which windows have a controller alone.
proof fn lemma_first_registered_by_domain(
    states: Map<isize, DesktopCompositionState>,
    others: Map<isize, DesktopCompositionState>,
    children: Seq<isize>,
)
    requires
        states.dom() == others.dom(),
    ensures
        first_registered(states, children) == first_registered(others, children),
    decreases children.len(),
{
    if children.len() > 0 {
        assert(states.dom().contains(children[0]) == others.dom().contains(children[0]));
        lemma_first_registered_by_domain(states, others, children.skip(1));
    }
}

/// A window finds its controller whatever the controllers present.
pub proof fn law_location_is_independent_of_presentation(
    states: Map<isize, DesktopCompositionState>,
    others: Map<isize, DesktopCompositionState>,
    window: WindowInfo,
    current_thread: u32,
)
    requires
        same_controllers(states, others),
    ensures
        located(states, window, current_thread) == located(others, window, current_thread),
{
    lemma_first_registered_by_domain(states, others, window.children@);
    lemma_controller_is_registered(states, window, current_thread);
    assert(states.dom().contains(window.hwnd) == others.dom().contains(window.hwnd));
}

/// A handle is invalid exactly if it is 0, and a thread is refused exactly if it is not
/// the owner.
pub proof fn law_handles_and_threads(hwnd: isize, owner: u32, current: u32)
    ensures
        invalid_handle(hwnd) <==> hwnd == 0,
        thread_check(owner, owner) == Ok::<(), ErrorView>(()),
        owner != current ==> thread_check(owner, current) == Err::<(), _>(
            (ErrorView::WrongThread { owner, current }),
        ),
{
}

/// A controller is found for a live window of this thread, and for no other: the one
/// that is registered for the window itself, or else the first one that is registered
/// for a child.
pub proof fn law_controller_is_found_exactly(
    states: Map<isize, DesktopCompositionState>,
    window: WindowInfo,
    current_thread: u32,
    hwnd: isize,
)
    ensures
        controller_of(states, window, current_thread) == Ok::<isize, ErrorView>(hwnd) <==> {
            &&& window.hwnd != 0
            &&& window.is_window
            &&& window.owner_thread != 0
            &&& window.owner_thread == current_thread
            &&& states.contains_key(hwnd)
            &&& hwnd == window.hwnd || (!states.contains_key(window.hwnd) && hwnd != 0
                && exists|i: int|
                {
                    &&& 0 <= i < window.children@.len()
                    &&& #[trigger] window.children@[i] == hwnd
                    &&& forall|j: int|
                        0 <= j < i ==> !states.contains_key(#[trigger] window.children@[j])
                })
        },
{
    let children = window.children@;
    law_search_finds_first_registered_child(states, children);
    match first_registered(states, children) {
        Some(first) => {
            let k = choose|k: int|
                {
                    &&& 0 <= k < children.len()
                    &&& #[trigger] children[k] == first
                    &&& states.contains_key(first)
                    &&& forall|j: int|
                        0 <= j < k ==> !states.contains_key(#[trigger] children[j])
                };
            assert forall|i: int|
                {
                    &&& 0 <= i < children.len()
                    &&& #[trigger] children[i] == hwnd
                    &&& states.contains_key(hwnd)
                    &&& forall|j: int|
                        0 <= j < i ==> !states.contains_key(#[trigger] children[j])
                } implies hwnd == first by {
                if i < k {
                    assert(!states.contains_key(children[i]));
                } else if k < i {
                    assert(!states.contains_key(children[k]));
                }
            }
        },
        None => {},
    }
}

/// A live window of another thread is refused for its thread. Every other window for
/// which no controller is found is refused for want of a controller.
pub proof fn law_window_is_refused_exactly(
    states: Map<isize, DesktopCompositionState>,
    window: WindowInfo,
    current_thread: u32,
)
    ensures
        ({
            let foreign = window.hwnd != 0 && window.is_window && window.owner_thread != 0
                && window.owner_thread != current_thread;
            &&& foreign ==> controller_of(states, window, current_thread) == Err::<isize, _>(
                (ErrorView::WrongThread { owner: window.owner_thread, current: current_thread }),
            )
            &&& !foreign && controller_of(states, window, current_thread) is Err
                ==> controller_of(states, window, current_thread) == Err::<isize, _>(
                ErrorView::ControllerUnavailable,
            )
        }),
{
}

/// A controller that was found is worked on exactly if it belongs to this thread too.
pub proof fn law_found_controller_is_worked_on_by_its_thread(
    states: Map<isize, DesktopCompositionState>,
    window: WindowInfo,
    current_thread: u32,
)
    ensures
        match controller_of(states, window, current_thread) {
            Ok(hwnd) => {
                let owner = states[hwnd].owner_thread;
                &&& owner == current_thread ==> located(states, window, current_thread) == Ok::<
                    isize,
                    ErrorView,
                >(hwnd)
                &&& owner != current_thread ==> located(states, window, current_thread) == Err::<
                    isize,
                    _,
                >((ErrorView::WrongThread { owner, current: current_thread }))
            },
            Err(error) => located(states, window, current_thread) == Err::<isize, _>(error),
        },
{
}

/// The controller that is located by way of a parent is located by way of its own
/// window as well.
pub proof fn law_located_controller_is_located_by_its_window(
    states: Map<isize, DesktopCompositionState>,
    window: WindowInfo,
    own: WindowInfo,
    current_thread: u32,
)
    requires
        located(states, window, current_thread) == Ok::<isize, ErrorView>(own.hwnd),
        own.is_window,
        own.owner_thread == current_thread,
    ensures
        located(states, own, current_thread) == Ok::<isize, ErrorView>(own.hwnd),
{
    lemma_controller_is_registered(states, window, current_thread);
}

/// Children are searched exactly for a live window of this thread that has no
/// controller itself, and then an only child with a controller is found.
pub proof fn law_search_finds_only_child(
    states: Map<isize, DesktopCompositionState>,
    window: WindowInfo,
    child: isize,
    current_thread: u32,
)
    ensures
        searched(states, window, current_thread) <==> {
            &&& window.hwnd != 0
            &&& window.is_window
            &&& window.owner_thread != 0
            &&& window.owner_thread == current_thread
            &&& !states.contains_key(window.hwnd)
        },
        searched(states, window, current_thread) && window.children@ == seq![child] && child != 0
            && states.contains_key(child) ==> controller_of(states, window, current_thread)
            == Ok::<isize, ErrorView>(child),
{
}

} // verus!
