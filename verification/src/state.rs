//! The controllers of a UI thread, and how a window finds its own.

use std::collections::HashMap;
use vstd::prelude::*;

verus! {

broadcast use vstd::std_specs::hash::group_hash_axioms;

/// The objects of one composition controller, each by its handle.
#[derive(Debug, PartialEq, Eq)]
pub struct DesktopCompositionState {
    /// The composition controller.
    pub controller: isize,
    /// The DirectComposition device.
    pub device: isize,
    /// The private target that holds the visual while it is not presented.
    pub parking_target: isize,
    /// The visual that the WebView draws to.
    pub visual: isize,
    /// The target of the presentation window, while the visual is presented.
    pub presentation_target: Option<isize>,
    /// The presentation window, or 0 while the visual is parked.
    pub presentation_hwnd: isize,
    /// The UI thread that owns the WebView.
    pub owner_thread: u32,
}

impl DesktopCompositionState {
    /// A presentation window is recorded together with its target, and the parking
    /// target never serves as one.
    pub open spec fn well_formed(self) -> bool {
        &&& self.presentation_target is Some <==> self.presentation_hwnd != 0
        &&& self.presentation_target != Some(self.parking_target)
    }

    /// The target that the visual is recorded to be the root of.
    pub open spec fn current_target(self) -> isize {
        match self.presentation_target {
            Some(target) => target,
            None => self.parking_target,
        }
    }

    /// The visual is recorded to be presented in the window `hwnd`.
    pub open spec fn attached_to(self, hwnd: isize) -> bool {
        self.presentation_hwnd == hwnd && self.presentation_target is Some
    }

    /// The state with the visual presented in `hwnd` by way of `target`.
    pub open spec fn presented(self, hwnd: isize, target: isize) -> Self {
        DesktopCompositionState {
            presentation_target: Some(target),
            presentation_hwnd: hwnd,
            ..self
        }
    }

    /// The state with the visual parked.
    pub open spec fn parked(self) -> Self {
        DesktopCompositionState { presentation_target: None, presentation_hwnd: 0, ..self }
    }

    /// The controller needs `target`: the visual is parked or presented there.
    pub open spec fn needs_target(self, target: isize) -> bool {
        target == self.parking_target || self.presentation_target == Some(target)
    }

    /// Whether the controller still needs `target`. A target that it does not need
    /// is to be let go.
    pub fn uses_target(&self, target: isize) -> (result: bool)
        ensures
            result == (target == self.parking_target || self.presentation_target == Some(target)),
            result == self.needs_target(target),
    {
        if target == self.parking_target {
            return true;
        }
        match self.presentation_target {
            Some(presentation) => presentation == target,
            None => false,
        }
    }
}

/// The composition controllers of one UI thread, by controller window.
pub struct CompositionStates {
    states: HashMap<isize, DesktopCompositionState>,
}

impl View for CompositionStates {
    type V = Map<isize, DesktopCompositionState>;

    closed spec fn view(&self) -> Map<isize, DesktopCompositionState> {
        self.states@
    }
}

/// Every state of the table is well formed.
pub open spec fn all_well_formed(states: Map<isize, DesktopCompositionState>) -> bool {
    forall|hwnd: isize| #[trigger] states.contains_key(hwnd) ==> states[hwnd].well_formed()
}

/// Every controller of the table belongs to `thread`.
pub open spec fn all_owned_by(states: Map<isize, DesktopCompositionState>, thread: u32) -> bool {
    forall|hwnd: isize| #[trigger]
        states.contains_key(hwnd) ==> states[hwnd].owner_thread == thread
}

impl CompositionStates {
    /// A table without controllers.
    pub fn new() -> (result: Self)
        ensures
            result@ == Map::<isize, DesktopCompositionState>::empty(),
            all_well_formed(result@),
            forall|thread: u32| all_owned_by(result@, thread),
    {
        CompositionStates { states: HashMap::new() }
    }

    /// Whether `hwnd` is the window of a registered controller.
    pub fn contains(&self, hwnd: isize) -> (result: bool)
        ensures
            result == self@.contains_key(hwnd),
    {
        self.states.contains_key(&hwnd)
    }

    /// The state of the controller of window `hwnd`.
    pub fn get(&self, hwnd: isize) -> (result: Option<&DesktopCompositionState>)
        ensures
            match result {
                Some(state) => self@.contains_key(hwnd) && *state == self@[hwnd],
                None => !self@.contains_key(hwnd),
            },
    {
        self.states.get(&hwnd)
    }

    /// The state of the controller of window `hwnd`, to be changed in place.
    pub(crate) fn get_mut(&mut self, hwnd: isize) -> (result: Option<&mut DesktopCompositionState>)
        ensures
            match result {
                Some(state) => {
                    &&& old(self)@.contains_key(hwnd)
                    &&& *state == old(self)@[hwnd]
                    &&& final(self)@ == old(self)@.insert(hwnd, *final(state))
                },
                None => !old(self)@.contains_key(hwnd) && final(self)@ == old(self)@,
            },
    {
        match self.states.entry(hwnd) {
            std::collections::hash_map::Entry::Occupied(entry) => Some(entry.into_mut()),
            std::collections::hash_map::Entry::Vacant(_) => None,
        }
    }

    /// Registers the state of the controller of window `hwnd`.
    pub(crate) fn insert(&mut self, hwnd: isize, state: DesktopCompositionState)
        ensures
            final(self)@ == old(self)@.insert(hwnd, state),
    {
        self.states.insert(hwnd, state);
    }

    /// Removes the controller of window `hwnd`, and returns its state.
    pub(crate) fn remove(&mut self, hwnd: isize) -> (result: Option<DesktopCompositionState>)
        ensures
            final(self)@ == old(self)@.remove(hwnd),
            result == if old(self)@.contains_key(hwnd) {
                Some(old(self)@[hwnd])
            } else {
                None
            },
    {
        self.states.remove(&hwnd)
    }
}

/// What a state records of its visual: it is parked, or presented in one window by way
/// of one target. The objects of the controller stay what they are either way.
pub proof fn law_state_records_one_place(
    state: DesktopCompositionState,
    hwnd: isize,
    target: isize,
    other: isize,
)
    ensures
        state.parked().presentation_target is None,
        state.parked().presentation_hwnd == 0,
        state.parked().controller == state.controller,
        state.parked().device == state.device,
        state.parked().parking_target == state.parking_target,
        state.parked().visual == state.visual,
        state.parked().owner_thread == state.owner_thread,
        state.presented(hwnd, target).presentation_target == Some(target),
        state.presented(hwnd, target).presentation_hwnd == hwnd,
        state.presented(hwnd, target).controller == state.controller,
        state.presented(hwnd, target).device == state.device,
        state.presented(hwnd, target).parking_target == state.parking_target,
        state.presented(hwnd, target).visual == state.visual,
        state.presented(hwnd, target).owner_thread == state.owner_thread,
        state.parked().current_target() == state.parking_target,
        state.presented(hwnd, target).current_target() == target,
        !state.parked().attached_to(other),
        state.presented(hwnd, target).attached_to(other) <==> other == hwnd,
        state.attached_to(other) <==> state.presentation_hwnd == other
            && state.presentation_target is Some,
        state.presentation_target is None ==> state.current_target() == state.parking_target,
        state.presentation_target matches Some(current) ==> state.current_target() == current,
{
}

/// A state is well formed exactly if it records a window other than 0 together with a
/// target other than the parking target, or neither.
pub proof fn law_well_formed_states(state: DesktopCompositionState)
    ensures
        state.well_formed() <==> match state.presentation_target {
            Some(target) => state.presentation_hwnd != 0 && target != state.parking_target,
            None => state.presentation_hwnd == 0,
        },
{
}

/// What is said of a table is said of each of its states.
pub proof fn law_table_properties_hold_of_each_state(
    states: Map<isize, DesktopCompositionState>,
    thread: u32,
)
    ensures
        all_well_formed(states) <==> forall|hwnd: isize| #[trigger]
            states.contains_key(hwnd) ==> states[hwnd].well_formed(),
        all_owned_by(states, thread) <==> forall|hwnd: isize| #[trigger]
            states.contains_key(hwnd) ==> states[hwnd].owner_thread == thread,
{
}

/// The target that the visual is in is needed, and so is the parking target, and no
/// other: after the visual was presented elsewhere, its former target is out of use.
pub proof fn law_needed_targets(state: DesktopCompositionState, hwnd: isize, target: isize, other: isize)
    ensures
        state.needs_target(state.current_target()),
        state.needs_target(state.parking_target),
        state.needs_target(other) ==> other == state.parking_target || other
            == state.current_target(),
        state.presented(hwnd, target).needs_target(other) <==> other == target || other
            == state.parking_target,
        state.parked().needs_target(other) <==> other == state.parking_target,
{
}

} // verus!
