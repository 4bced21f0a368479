//! The registration of a controller for the time that its WebView lives.

use crate::error::DesktopCompositionError;
use crate::error::ErrorView;
use crate::state;
use crate::state::CompositionStates;
use crate::state::DesktopCompositionState;
use crate::window;
use std::marker::PhantomData;
use std::rc::Rc;
use vstd::prelude::*;

verus! {

/// A composition controller that was created and is not registered yet.
#[derive(Debug, PartialEq, Eq)]
pub struct PreparedDesktopComposition {
    /// The window that the controller was created for.
    pub controller_hwnd: isize,
    /// The `ICoreWebView2Controller` of the composition controller.
    pub controller: isize,
    /// The objects of the controller.
    pub state: DesktopCompositionState,
}

/// The registration of a controller. It stays on the thread that made it.
#[derive(Debug)]
pub struct DesktopCompositionRegistration {
    pub controller_hwnd: isize,
    pub owner_thread: u32,
    pub _not_send: PhantomData<Rc<()>>,
}

impl PreparedDesktopComposition {
    /// Why the controller cannot be registered from `current_thread`, if it cannot.
    pub open spec fn refusal(
        self,
        states: Map<isize, DesktopCompositionState>,
        current_thread: u32,
    ) -> Option<ErrorView> {
        if self.state.owner_thread != current_thread {
            Some(ErrorView::WrongThread {
                owner: self.state.owner_thread,
                current: current_thread,
            })
        } else if states.contains_key(self.controller_hwnd) {
            Some(ErrorView::ControllerAlreadyRegistered)
        } else {
            None
        }
    }

    /// The table after an attempt to register the controller from `current_thread`.
    pub open spec fn registered(
        self,
        states: Map<isize, DesktopCompositionState>,
        current_thread: u32,
    ) -> Map<isize, DesktopCompositionState> {
        match self.refusal(states, current_thread) {
            Some(_) => states,
            None => states.insert(self.controller_hwnd, self.state),
        }
    }

    /// The `ICoreWebView2Controller` of the composition controller.
    pub fn controller(&self) -> (result: isize)
        ensures
            result == self.controller,
    {
        self.controller
    }

    /// Registers the controller with the controllers of its thread.
    pub fn register(self, states: &mut CompositionStates, current_thread: u32) -> (result: Result<
        DesktopCompositionRegistration,
        DesktopCompositionError,
    >)
        ensures
            match (result, self.refusal(old(states)@, current_thread)) {
                (Ok(registration), None) => {
                    &&& registration.controller_hwnd == self.controller_hwnd
                    &&& registration.owner_thread == self.state.owner_thread
                    &&& final(states)@ == old(states)@.insert(self.controller_hwnd, self.state)
                },
                (Err(error), Some(refusal)) => {
                    &&& error@ == refusal
                    &&& final(states)@ == old(states)@
                },
                _ => false,
            },
            final(states)@ == self.registered(old(states)@, current_thread),
    {
        let owner_thread: u32 = self.state.owner_thread;
        match window::ensure_owner_thread(owner_thread, current_thread) {
            Ok(()) => {},
            Err(error) => return Err(error),
        }
        if states.contains(self.controller_hwnd) {
            return Err(DesktopCompositionError::ControllerAlreadyRegistered);
        }
        states.insert(self.controller_hwnd, self.state);
        Ok(
            DesktopCompositionRegistration {
                controller_hwnd: self.controller_hwnd,
                owner_thread,
                _not_send: PhantomData,
            },
        )
    }
}

impl DesktopCompositionRegistration {
    /// The table after the registration has ended on `current_thread`. On a thread
    /// other than the owner it is left alone.
    pub open spec fn released(
        self,
        states: Map<isize, DesktopCompositionState>,
        current_thread: u32,
    ) -> Map<isize, DesktopCompositionState> {
        if self.owner_thread == current_thread {
            states.remove(self.controller_hwnd)
        } else {
            states
        }
    }

    /// The state that is removed when the registration ends on `current_thread`.
    pub open spec fn removed(
        self,
        states: Map<isize, DesktopCompositionState>,
        current_thread: u32,
    ) -> Option<DesktopCompositionState> {
        if self.owner_thread == current_thread && states.contains_key(self.controller_hwnd) {
            Some(states[self.controller_hwnd])
        } else {
            None
        }
    }

    /// Ends the registration, and returns the state that was removed with it.
    pub fn release(&self, states: &mut CompositionStates, current_thread: u32) -> (result: Option<
        DesktopCompositionState,
    >)
        ensures
            final(states)@ == self.released(old(states)@, current_thread),
            result == if self.owner_thread == current_thread && old(states)@.contains_key(
                self.controller_hwnd,
            ) {
                Some(old(states)@[self.controller_hwnd])
            } else {
                None
            },
            result == self.removed(old(states)@, current_thread),
    {
        if self.owner_thread != current_thread {
            return None;
        }
        states.remove(self.controller_hwnd)
    }
}

/// Ending a registration on its thread undoes it.
pub proof fn law_release_undoes_register(
    states: Map<isize, DesktopCompositionState>,
    prepared: PreparedDesktopComposition,
    registration: DesktopCompositionRegistration,
    current_thread: u32,
)
    requires
        prepared.refusal(states, current_thread) is None,
        registration.controller_hwnd == prepared.controller_hwnd,
        registration.owner_thread == prepared.state.owner_thread,
    ensures
        registration.released(
            states.insert(prepared.controller_hwnd, prepared.state),
            current_thread,
        ) == states,
{
    assert(states.insert(prepared.controller_hwnd, prepared.state).remove(prepared.controller_hwnd)
        =~= states);
}

/// A window has at most one registered controller: while one is registered, every
/// other is refused.
pub proof fn law_one_controller_per_window(
    states: Map<isize, DesktopCompositionState>,
    prepared: PreparedDesktopComposition,
    other: PreparedDesktopComposition,
    current_thread: u32,
)
    requires
        prepared.refusal(states, current_thread) is None,
        other.controller_hwnd == prepared.controller_hwnd,
    ensures
        other.refusal(
            states.insert(prepared.controller_hwnd, prepared.state),
            current_thread,
        ) is Some,
{
}

/// Registering and ending a registration keep the states of the table well formed.
pub proof fn law_registration_keeps_table_well_formed(
    states: Map<isize, DesktopCompositionState>,
    prepared: PreparedDesktopComposition,
    registration: DesktopCompositionRegistration,
    current_thread: u32,
)
    requires
        state::all_well_formed(states),
        prepared.state.well_formed(),
    ensures
        state::all_well_formed(states.insert(prepared.controller_hwnd, prepared.state)),
        state::all_well_formed(registration.released(states, current_thread)),
{
}

/// The controllers of a table stay with the thread that registers them there: what
/// the thread registers belongs to it, and the end of a registration adds nothing.
pub proof fn law_registration_keeps_table_on_its_thread(
    states: Map<isize, DesktopCompositionState>,
    prepared: PreparedDesktopComposition,
    registration: DesktopCompositionRegistration,
    thread: u32,
    current_thread: u32,
)
    requires
        state::all_owned_by(states, thread),
    ensures
        prepared.refusal(states, thread) is None ==> state::all_owned_by(
            states.insert(prepared.controller_hwnd, prepared.state),
            thread,
        ),
        state::all_owned_by(registration.released(states, current_thread), thread),
{
}

/// A controller is refused exactly on a thread other than its own, and for a window that
/// has one already. Otherwise its window has that very controller from then on, and the
/// other windows keep what they have.
pub proof fn law_controller_is_registered_exactly(
    states: Map<isize, DesktopCompositionState>,
    prepared: PreparedDesktopComposition,
    current_thread: u32,
    other: isize,
)
    ensures
        ({
            let owner = prepared.state.owner_thread;
            let hwnd = prepared.controller_hwnd;
            let after = prepared.registered(states, current_thread);
            &&& owner != current_thread ==> {
                &&& prepared.refusal(states, current_thread) == Some(
                    (ErrorView::WrongThread { owner, current: current_thread }),
                )
                &&& after == states
            }
            &&& owner == current_thread && states.contains_key(hwnd) ==> {
                &&& prepared.refusal(states, current_thread) == Some(
                    ErrorView::ControllerAlreadyRegistered,
                )
                &&& after == states
            }
            &&& owner == current_thread && !states.contains_key(hwnd) ==> {
                &&& prepared.refusal(states, current_thread) is None
                &&& after.contains_key(hwnd)
                &&& after[hwnd] == prepared.state
            }
            &&& other != hwnd ==> {
                &&& after.contains_key(other) == states.contains_key(other)
                &&& after[other] == states[other]
            }
        }),
{
}

/// The end of a registration on its thread takes the controller of its window from the
/// table, and nothing else, and hands out what it took. On another thread nothing is changed.
pub proof fn law_release_removes_one_controller(
    states: Map<isize, DesktopCompositionState>,
    registration: DesktopCompositionRegistration,
    current_thread: u32,
    other: isize,
)
    ensures
        ({
            let after = registration.released(states, current_thread);
            let removed = registration.removed(states, current_thread);
            &&& removed is Some <==> states.contains_key(registration.controller_hwnd)
                && !after.contains_key(registration.controller_hwnd)
            &&& removed matches Some(state) ==> state == states[registration.controller_hwnd]
            &&& registration.owner_thread == current_thread ==> !after.contains_key(
                registration.controller_hwnd,
            )
            &&& registration.owner_thread != current_thread ==> after == states
            &&& other != registration.controller_hwnd ==> {
                &&& after.contains_key(other) == states.contains_key(other)
                &&& after.contains_key(other) ==> after[other] == states[other]
            }
        }),
{
}

} // verus!
