//! Moving the visual of a WebView from one composition target to another.
//!
//! A move is made of DirectComposition calls. Each of them can fail. A failure
//! after the visual left its target is answered by putting it back.

use crate::error;
use crate::error::DesktopCompositionError;
use crate::error::ErrorView;
use crate::state;
use crate::state::CompositionStates;
use crate::state::DesktopCompositionState;
use crate::step;
use crate::step::Step;
use vstd::prelude::*;

verus! {

/// A DirectComposition call, with the handles of the objects that it is made on.
#[derive(Debug, Clone, Copy, PartialEq, Eq)]
pub enum CompositionCall {
    /// `device.CreateTargetForHwnd(hwnd, topmost)`
    CreateTargetForHwnd { device: isize, hwnd: isize, topmost: bool },
    /// `target.SetRoot(None)`
    ClearRoot { target: isize },
    /// `target.SetRoot(visual)`
    SetRoot { target: isize, visual: isize },
    /// `device.Commit()`
    Commit { device: isize },
}

/// The call that a move of the visual waits for.
#[derive(Debug, Clone, Copy, PartialEq, Eq)]
pub enum MovePhase {
    /// The visual is taken from its present target.
    ClearPrevious,
    /// The visual is made the root of the new target.
    AttachVisual,
    /// The change is committed.
    CommitMove,
    /// After a failure, the visual is taken from the new target.
    RestoreClear,
    /// After a failure, the visual is made the root of its previous target again.
    RestoreAttach,
    /// After a failure, the restored graph is committed.
    RestoreCommit,
}

/// A move of the visual that has begun.
#[derive(Debug, Clone, PartialEq, Eq)]
pub struct VisualMove {
    /// The window of the controller whose visual moves.
    pub controller_hwnd: isize,
    /// The DirectComposition device of the controller.
    pub device: isize,
    /// The visual that moves.
    pub visual: isize,
    /// The target that the visual leaves.
    pub previous: isize,
    /// The target that the visual moves to.
    pub attempted: isize,
    /// The presentation window of the new target; `None` for the parking target.
    pub presentation_hwnd: Option<isize>,
    /// The call that the move waits for.
    pub phase: MovePhase,
    /// The message of the call that failed; empty up to the first failure.
    pub failure: String,
}

/// What a `VisualMove` stands for.
pub struct MoveView {
    pub controller_hwnd: isize,
    pub device: isize,
    pub visual: isize,
    pub previous: isize,
    pub attempted: isize,
    pub presentation_hwnd: Option<isize>,
    pub phase: MovePhase,
    pub failure: Seq<char>,
}

impl View for VisualMove {
    type V = MoveView;

    open spec fn view(&self) -> MoveView {
        MoveView {
            controller_hwnd: self.controller_hwnd,
            device: self.device,
            visual: self.visual,
            previous: self.previous,
            attempted: self.attempted,
            presentation_hwnd: self.presentation_hwnd,
            phase: self.phase,
            failure: self.failure@,
        }
    }
}

/// The reply to a call that gives no value, with the message of a failure as a
/// sequence of characters.
pub type ReplyView = Result<(), Seq<char>>;

/// The error of a move that failed with `original`, after an attempt to put the
/// visual back that ended with `rollback`.
pub open spec fn transition_failure(
    operation: Seq<char>,
    original: Seq<char>,
    rollback: ReplyView,
) -> ErrorView {
    match rollback {
        Ok(_) => ErrorView::OperationFailed(error::labelled(operation, original)),
        Err(rollback) => ErrorView::OperationFailed(
            error::labelled(
                error::labelled(operation, original)
                    + "; restoring the last committed target also failed"@,
                rollback,
            ),
        ),
    }
}

impl MoveView {
    /// What is reported if the visual cannot be taken from its target.
    pub open spec fn clearing_text(self) -> Seq<char> {
        match self.presentation_hwnd {
            Some(_) => "clearing the previous composition target failed"@,
            None => "detaching the presentation target failed"@,
        }
    }

    /// What is reported if the visual cannot be put on the new target.
    pub open spec fn attaching_text(self) -> Seq<char> {
        match self.presentation_hwnd {
            Some(_) => "attaching the presentation target failed"@,
            None => "restoring the parking target failed"@,
        }
    }

    /// The call that the move waits for.
    pub open spec fn call(self) -> CompositionCall {
        match self.phase {
            MovePhase::ClearPrevious => CompositionCall::ClearRoot { target: self.previous },
            MovePhase::AttachVisual => CompositionCall::SetRoot {
                target: self.attempted,
                visual: self.visual,
            },
            MovePhase::CommitMove => CompositionCall::Commit { device: self.device },
            MovePhase::RestoreClear => CompositionCall::ClearRoot { target: self.attempted },
            MovePhase::RestoreAttach => CompositionCall::SetRoot {
                target: self.previous,
                visual: self.visual,
            },
            MovePhase::RestoreCommit => CompositionCall::Commit { device: self.device },
        }
    }

    /// The move waiting for another call.
    pub open spec fn at(self, phase: MovePhase) -> MoveView {
        MoveView { phase, ..self }
    }

    /// The move putting the visual back, after a failure with `message`.
    pub open spec fn restoring(self, message: Seq<char>) -> MoveView {
        MoveView { phase: MovePhase::RestoreClear, failure: message, ..self }
    }

    /// The error of the move once the attempt to put the visual back is over.
    pub open spec fn failed(self, rollback: ReplyView) -> ErrorView {
        transition_failure(self.attaching_text(), self.failure, rollback)
    }

    /// What the reply to the call leads to.
    pub open spec fn answered(self, reply: ReplyView) -> Step<MoveView, Result<(), ErrorView>> {
        match (self.phase, reply) {
            (MovePhase::ClearPrevious, Ok(_)) => Step::Pending(self.at(MovePhase::AttachVisual)),
            (MovePhase::ClearPrevious, Err(message)) => Step::Done(
                Err(ErrorView::OperationFailed(error::labelled(self.clearing_text(), message))),
            ),
            (MovePhase::AttachVisual, Ok(_)) => Step::Pending(self.at(MovePhase::CommitMove)),
            (MovePhase::CommitMove, Ok(_)) => Step::Done(Ok(())),
            (MovePhase::AttachVisual | MovePhase::CommitMove, Err(message)) => Step::Pending(
                self.restoring(message),
            ),
            (MovePhase::RestoreClear, Ok(_)) => Step::Pending(self.at(MovePhase::RestoreAttach)),
            (MovePhase::RestoreAttach, Ok(_)) => Step::Pending(self.at(MovePhase::RestoreCommit)),
            _ => Step::Done(Err(self.failed(reply))),
        }
    }

    /// What the table records of the visual once the move has succeeded.
    pub open spec fn recorded(self, state: DesktopCompositionState) -> DesktopCompositionState {
        match self.presentation_hwnd {
            Some(hwnd) => state.presented(hwnd, self.attempted),
            None => state.parked(),
        }
    }

    /// The table after the reply to the call: a controller is changed by the reply
    /// that ends its move with success, and by no other.
    pub open spec fn table_after(
        self,
        states: Map<isize, DesktopCompositionState>,
        reply: ReplyView,
    ) -> Map<isize, DesktopCompositionState> {
        if self.answered(reply) == Step::<MoveView, _>::Done(Ok::<(), ErrorView>(()))
            && states.contains_key(self.controller_hwnd) {
            states.insert(self.controller_hwnd, self.recorded(states[self.controller_hwnd]))
        } else {
            states
        }
    }
}

/// What an answered move stands for.
pub open spec fn step_view(step: Step<VisualMove, Result<(), DesktopCompositionError>>) -> Step<
    MoveView,
    Result<(), ErrorView>,
> {
    match step {
        Step::Pending(next) => Step::Pending(next@),
        Step::Done(result) => Step::Done(error::outcome(result)),
    }
}

/// The error of a move that failed with `original`, after an attempt to put the
/// visual back that ended with `rollback`.
pub fn transition_error(
    operation: &str,
    original: &str,
    rollback: Result<(), String>,
) -> (result: DesktopCompositionError)
    ensures
        result@ == transition_failure(operation@, original@, step::reply_view(rollback)),
{
    match rollback {
        Ok(()) => error::operation_failed(operation, original),
        Err(rollback) => {
            let failed: String = error::label(operation, original).concat(
                "; restoring the last committed target also failed",
            );
            error::operation_failed(failed.as_str(), rollback.as_str())
        },
    }
}

impl VisualMove {
    /// The call that the move waits for.
    pub fn call(&self) -> (result: CompositionCall)
        ensures
            result == self@.call(),
    {
        match self.phase {
            MovePhase::ClearPrevious => CompositionCall::ClearRoot { target: self.previous },
            MovePhase::AttachVisual => CompositionCall::SetRoot {
                target: self.attempted,
                visual: self.visual,
            },
            MovePhase::CommitMove => CompositionCall::Commit { device: self.device },
            MovePhase::RestoreClear => CompositionCall::ClearRoot { target: self.attempted },
            MovePhase::RestoreAttach => CompositionCall::SetRoot {
                target: self.previous,
                visual: self.visual,
            },
            MovePhase::RestoreCommit => CompositionCall::Commit { device: self.device },
        }
    }

    fn clearing_text(&self) -> (result: &'static str)
        ensures
            result@ == self@.clearing_text(),
    {
        match self.presentation_hwnd {
            Some(_) => "clearing the previous composition target failed",
            None => "detaching the presentation target failed",
        }
    }

    fn attaching_text(&self) -> (result: &'static str)
        ensures
            result@ == self@.attaching_text(),
    {
        match self.presentation_hwnd {
            Some(_) => "attaching the presentation target failed",
            None => "restoring the parking target failed",
        }
    }

    /// The move waiting for another call.
    fn at(self, phase: MovePhase) -> (result: VisualMove)
        ensures
            result@ == self@.at(phase),
    {
        VisualMove { phase, ..self }
    }

    /// The move putting the visual back: it is taken from the new target and made
    /// the root of the previous one again, and the graph is committed.
    fn restore_visual(self, message: String) -> (result: VisualMove)
        ensures
            result@ == self@.restoring(message@),
    {
        VisualMove { phase: MovePhase::RestoreClear, failure: message, ..self }
    }

    /// Records in the table what the move has achieved.
    fn record(&self, states: &mut CompositionStates)
        ensures
            final(states)@ == if old(states)@.contains_key(self.controller_hwnd) {
                old(states)@.insert(
                    self.controller_hwnd,
                    self@.recorded(old(states)@[self.controller_hwnd]),
                )
            } else {
                old(states)@
            },
    {
        if let Some(state) = states.get_mut(self.controller_hwnd) {
            match self.presentation_hwnd {
                Some(hwnd) => {
                    state.presentation_target = Some(self.attempted);
                    state.presentation_hwnd = hwnd;
                },
                None => {
                    state.presentation_target = None;
                    state.presentation_hwnd = 0;
                },
            }
        }
    }

    /// Goes on with the reply to the call that the move waits for. The table of
    /// controllers is changed only by a successful commit of the move.
    pub fn next(
        self,
        states: &mut CompositionStates,
        reply: Result<(), String>,
    ) -> (result: Step<VisualMove, Result<(), DesktopCompositionError>>)
        ensures
            step_view(result) == self@.answered(step::reply_view(reply)),
            final(states)@ == self@.table_after(old(states)@, step::reply_view(reply)),
    {
        match self.phase {
            MovePhase::ClearPrevious => match reply {
                Ok(()) => Step::Pending(self.at(MovePhase::AttachVisual)),
                Err(message) => Step::Done(
                    Err(error::operation_failed(self.clearing_text(), message.as_str())),
                ),
            },
            MovePhase::AttachVisual => match reply {
                Ok(()) => Step::Pending(self.at(MovePhase::CommitMove)),
                Err(message) => Step::Pending(self.restore_visual(message)),
            },
            MovePhase::CommitMove => match reply {
                Ok(()) => {
                    self.record(states);
                    Step::Done(Ok(()))
                },
                Err(message) => Step::Pending(self.restore_visual(message)),
            },
            MovePhase::RestoreClear => match reply {
                Ok(()) => Step::Pending(self.at(MovePhase::RestoreAttach)),
                Err(message) => Step::Done(
                    Err(
                        transition_error(
                            self.attaching_text(),
                            self.failure.as_str(),
                            Err(message),
                        ),
                    ),
                ),
            },
            MovePhase::RestoreAttach => match reply {
                Ok(()) => Step::Pending(self.at(MovePhase::RestoreCommit)),
                Err(message) => Step::Done(
                    Err(
                        transition_error(
                            self.attaching_text(),
                            self.failure.as_str(),
                            Err(message),
                        ),
                    ),
                ),
            },
            MovePhase::RestoreCommit => Step::Done(
                Err(transition_error(self.attaching_text(), self.failure.as_str(), reply)),
            ),
        }
    }
}

/// A move to a presentation window that waits for the target of the window.
#[derive(Debug, Clone, Copy, PartialEq, Eq)]
pub struct Retarget {
    /// The window of the controller whose visual moves.
    pub controller_hwnd: isize,
    /// The DirectComposition device of the controller.
    pub device: isize,
    /// The visual that moves.
    pub visual: isize,
    /// The target that the visual leaves.
    pub previous: isize,
    /// The window that the visual is to be presented in.
    pub presentation_hwnd: isize,
}

/// What is reported if the target of a presentation window cannot be created.
pub open spec fn creation_failure(message: Seq<char>) -> ErrorView {
    ErrorView::OperationFailed(error::labelled("CreateTargetForHwnd failed"@, message))
}

impl Retarget {
    /// The move to the target `attempted` at its first call.
    pub open spec fn begun(self, attempted: isize) -> MoveView {
        MoveView {
            controller_hwnd: self.controller_hwnd,
            device: self.device,
            visual: self.visual,
            previous: self.previous,
            attempted,
            presentation_hwnd: Some(self.presentation_hwnd),
            phase: MovePhase::ClearPrevious,
            failure: Seq::empty(),
        }
    }

    /// The call that the move waits for.
    pub open spec fn pending_call(self) -> CompositionCall {
        CompositionCall::CreateTargetForHwnd {
            device: self.device,
            hwnd: self.presentation_hwnd,
            topmost: true,
        }
    }

    /// The call that the move waits for.
    pub fn call(&self) -> (result: CompositionCall)
        ensures
            result == (CompositionCall::CreateTargetForHwnd {
                device: self.device,
                hwnd: self.presentation_hwnd,
                topmost: true,
            }),
            result == self.pending_call(),
    {
        CompositionCall::CreateTargetForHwnd {
            device: self.device,
            hwnd: self.presentation_hwnd,
            topmost: true,
        }
    }

    /// Goes on with the target that was created, or with the message of the failure.
    pub fn next(self, reply: Result<isize, String>) -> (result: Result<
        VisualMove,
        DesktopCompositionError,
    >)
        ensures
            match (result, reply) {
                (Ok(begun), Ok(attempted)) => begun@ == self.begun(attempted),
                (Err(error), Err(message)) => error@ == creation_failure(message@),
                _ => false,
            },
    {
        match reply {
            Ok(attempted) => Ok(
                VisualMove {
                    controller_hwnd: self.controller_hwnd,
                    device: self.device,
                    visual: self.visual,
                    previous: self.previous,
                    attempted,
                    presentation_hwnd: Some(self.presentation_hwnd),
                    phase: MovePhase::ClearPrevious,
                    failure: String::new(),
                },
            ),
            Err(message) => Err(
                error::operation_failed("CreateTargetForHwnd failed", message.as_str()),
            ),
        }
    }
}

/// Where a move stands after `replies`.
pub open spec fn run(visual_move: MoveView, replies: Seq<ReplyView>) -> Step<
    MoveView,
    Result<(), ErrorView>,
>
    decreases replies.len(),
{
    if replies.len() == 0 {
        Step::Pending(visual_move)
    } else {
        match visual_move.answered(replies[0]) {
            Step::Pending(next) => run(next, replies.skip(1)),
            Step::Done(result) => Step::Done(result),
        }
    }
}

/// The calls that were made for `replies` to come.
pub open spec fn calls_made(visual_move: MoveView, replies: Seq<ReplyView>) -> Seq<
    CompositionCall,
>
    decreases replies.len(),
{
    if replies.len() == 0 {
        Seq::empty()
    } else {
        match visual_move.answered(replies[0]) {
            Step::Pending(next) => seq![visual_move.call()] + calls_made(next, replies.skip(1)),
            Step::Done(_) => seq![visual_move.call()],
        }
    }
}

/// The table of controllers after `replies`.
pub open spec fn table_after_run(
    visual_move: MoveView,
    states: Map<isize, DesktopCompositionState>,
    replies: Seq<ReplyView>,
) -> Map<isize, DesktopCompositionState>
    decreases replies.len(),
{
    if replies.len() == 0 {
        states
    } else {
        let after = visual_move.table_after(states, replies[0]);
        match visual_move.answered(replies[0]) {
            Step::Pending(next) => table_after_run(next, after, replies.skip(1)),
            Step::Done(_) => after,
        }
    }
}

/// The targets that have the visual as their root: in the graph as it is being
/// edited, and in the graph as it was last committed and is shown.
#[verifier::ext_equal]
pub struct Placement {
    pub edited: Set<isize>,
    pub committed: Set<isize>,
}

impl Placement {
    /// The visual is the root of `target` alone.
    pub open spec fn on(target: isize) -> Placement {
        Placement { edited: set![target], committed: set![target] }
    }

    /// The placement after a call. A call that fails leaves it as it was.
    pub open spec fn after(self, call: CompositionCall, reply: ReplyView) -> Placement {
        match (reply, call) {
            (Ok(_), CompositionCall::ClearRoot { target }) => Placement {
                edited: self.edited.remove(target),
                ..self
            },
            (Ok(_), CompositionCall::SetRoot { target, .. }) => Placement {
                edited: self.edited.insert(target),
                ..self
            },
            (Ok(_), CompositionCall::Commit { .. }) => Placement {
                committed: self.edited,
                ..self
            },
            _ => self,
        }
    }
}

/// The placement of the visual after `replies`.
pub open spec fn placement_after_run(
    visual_move: MoveView,
    placement: Placement,
    replies: Seq<ReplyView>,
) -> Placement
    decreases replies.len(),
{
    if replies.len() == 0 {
        placement
    } else {
        let after = placement.after(visual_move.call(), replies[0]);
        match visual_move.answered(replies[0]) {
            Step::Pending(next) => placement_after_run(next, after, replies.skip(1)),
            Step::Done(_) => after,
        }
    }
}

/// A move is over after at most six calls, whatever is replied to them.
pub proof fn law_move_ends(visual_move: MoveView, replies: Seq<ReplyView>)
    requires
        visual_move.phase == MovePhase::ClearPrevious,
        replies.len() >= 6,
    ensures
        run(visual_move, replies) is Done,
        calls_made(visual_move, replies).len() <= 6,
{
    reveal_with_fuel(run, 7);
    reveal_with_fuel(calls_made, 7);
}

/// A move succeeds exactly if its three calls succeed: the visual is taken from the
/// previous target and put on the new one, and the change is committed. No other
/// call is made then.
pub proof fn law_move_succeeds_by_three_calls(visual_move: MoveView, replies: Seq<ReplyView>)
    requires
        visual_move.phase == MovePhase::ClearPrevious,
    ensures
        run(visual_move, replies) == Step::<MoveView, _>::Done(Ok::<(), ErrorView>(())) <==> {
            &&& replies.len() >= 3
            &&& replies[0] is Ok
            &&& replies[1] is Ok
            &&& replies[2] is Ok
        },
        run(visual_move, replies) == Step::<MoveView, _>::Done(Ok::<(), ErrorView>(()))
            ==> calls_made(visual_move, replies) == seq![
            CompositionCall::ClearRoot { target: visual_move.previous },
            CompositionCall::SetRoot { target: visual_move.attempted, visual: visual_move.visual },
            CompositionCall::Commit { device: visual_move.device },
        ],
{
    reveal_with_fuel(run, 7);
    reveal_with_fuel(calls_made, 7);
}

/// The table of controllers is changed by a move that succeeds, and by no other.
pub proof fn law_table_changes_only_by_success(
    visual_move: MoveView,
    states: Map<isize, DesktopCompositionState>,
    replies: Seq<ReplyView>,
)
    ensures
        table_after_run(visual_move, states, replies) == if run(visual_move, replies)
            == Step::<MoveView, _>::Done(Ok::<(), ErrorView>(())) && states.contains_key(
            visual_move.controller_hwnd,
        ) {
            states.insert(
                visual_move.controller_hwnd,
                visual_move.recorded(states[visual_move.controller_hwnd]),
            )
        } else {
            states
        },
    decreases replies.len(),
{
    if replies.len() > 0 {
        match visual_move.answered(replies[0]) {
            Step::Pending(next) => {
                law_table_changes_only_by_success(next, states, replies.skip(1));
            },
            Step::Done(_) => {},
        }
    }
}

/// Whatever fails, the visual is shown in exactly one target once a move is over:
/// the new one if the move succeeded, else the previous one.
pub proof fn law_visual_is_shown_in_one_target(visual_move: MoveView, replies: Seq<ReplyView>)
    requires
        visual_move.phase == MovePhase::ClearPrevious,
        visual_move.attempted != visual_move.previous,
        run(visual_move, replies) is Done,
    ensures
        placement_after_run(
            visual_move,
            Placement::on(visual_move.previous),
            replies,
        ).committed == if run(visual_move, replies) == Step::<MoveView, _>::Done(
            Ok::<(), ErrorView>(()),
        ) {
            set![visual_move.attempted]
        } else {
            set![visual_move.previous]
        },
{
    reveal_with_fuel(run, 7);
    reveal_with_fuel(placement_after_run, 7);
    let previous = visual_move.previous;
    let attempted = visual_move.attempted;
    assert(set![previous].remove(previous).insert(attempted) =~= set![attempted]);
    assert(set![previous].remove(previous).remove(attempted).insert(previous) =~= set![previous]);
    assert(set![attempted].remove(attempted).insert(previous) =~= set![previous]);
}

/// A move that fails after the visual left its target puts it back: if the calls
/// for that succeed, the visual is where it was before the move, and the error
/// names the first failure alone.
pub proof fn law_failed_move_is_undone(
    visual_move: MoveView,
    message: Seq<char>,
    replies: Seq<ReplyView>,
)
    requires
        visual_move.phase == MovePhase::ClearPrevious,
        visual_move.attempted != visual_move.previous,
        replies == seq![Ok::<(), Seq<char>>(()), Err(message), Ok(()), Ok(()), Ok(())]
            || replies == seq![
            Ok::<(), Seq<char>>(()),
            Ok(()),
            Err(message),
            Ok(()),
            Ok(()),
            Ok(()),
        ],
    ensures
        run(visual_move, replies) == Step::<MoveView, _>::Done(
            Err::<(), _>(
                ErrorView::OperationFailed(
                    error::labelled(visual_move.attaching_text(), message),
                ),
            ),
        ),
        placement_after_run(visual_move, Placement::on(visual_move.previous), replies)
            == Placement::on(visual_move.previous),
{
    reveal_with_fuel(run, 7);
    reveal_with_fuel(placement_after_run, 7);
    let previous = visual_move.previous;
    let attempted = visual_move.attempted;
    assert(set![previous].remove(previous).remove(attempted).insert(previous) =~= set![previous]);
    assert(set![previous].remove(previous).insert(attempted).remove(attempted).insert(previous)
        =~= set![previous]);
}

/// Once a move is over, the table names the target that the visual is shown in.
pub proof fn law_table_names_shown_target(
    visual_move: MoveView,
    states: Map<isize, DesktopCompositionState>,
    replies: Seq<ReplyView>,
)
    requires
        visual_move.phase == MovePhase::ClearPrevious,
        visual_move.attempted != visual_move.previous,
        states.contains_key(visual_move.controller_hwnd),
        states[visual_move.controller_hwnd].current_target() == visual_move.previous,
        visual_move.presentation_hwnd is None ==> visual_move.attempted
            == states[visual_move.controller_hwnd].parking_target,
        run(visual_move, replies) is Done,
    ensures
        placement_after_run(
            visual_move,
            Placement::on(visual_move.previous),
            replies,
        ).committed == set![
            table_after_run(
                visual_move,
                states,
                replies,
            )[visual_move.controller_hwnd].current_target(),
        ],
{
    law_visual_is_shown_in_one_target(visual_move, replies);
    law_table_changes_only_by_success(visual_move, states, replies);
}

/// A move keeps the states of the table well formed.
pub proof fn law_table_stays_well_formed(
    visual_move: MoveView,
    states: Map<isize, DesktopCompositionState>,
    replies: Seq<ReplyView>,
)
    requires
        state::all_well_formed(states),
        visual_move.presentation_hwnd != Some(0isize),
        visual_move.presentation_hwnd is Some && states.contains_key(visual_move.controller_hwnd)
            ==> visual_move.attempted != states[visual_move.controller_hwnd].parking_target,
    ensures
        state::all_well_formed(table_after_run(visual_move, states, replies)),
{
    law_table_changes_only_by_success(visual_move, states, replies);
}

/// A move keeps every controller of the table with its thread.
pub proof fn law_move_keeps_table_on_its_thread(
    visual_move: MoveView,
    states: Map<isize, DesktopCompositionState>,
    replies: Seq<ReplyView>,
    thread: u32,
)
    requires
        state::all_owned_by(states, thread),
    ensures
        state::all_owned_by(table_after_run(visual_move, states, replies), thread),
{
    law_table_changes_only_by_success(visual_move, states, replies);
}

/// The view of a move keeps every field of it, and the view of a step tells what the
/// step is.
pub proof fn law_move_view_loses_nothing(
    visual_move: VisualMove,
    result: Result<(), DesktopCompositionError>,
)
    ensures
        visual_move@.controller_hwnd == visual_move.controller_hwnd,
        visual_move@.device == visual_move.device,
        visual_move@.visual == visual_move.visual,
        visual_move@.previous == visual_move.previous,
        visual_move@.attempted == visual_move.attempted,
        visual_move@.presentation_hwnd == visual_move.presentation_hwnd,
        visual_move@.phase == visual_move.phase,
        visual_move@.failure == visual_move.failure@,
        step_view(Step::Pending(visual_move)) == Step::<MoveView, Result<(), ErrorView>>::Pending(
            visual_move@,
        ),
        step_view(Step::Done(result)) == Step::<MoveView, _>::Done(error::outcome(result)),
{
}

/// The move to a presentation window creates the target of that very window, and then
/// takes the visual from its previous target to the one that was created.
pub proof fn law_retarget_moves_to_created_target(
    retarget: Retarget,
    attempted: isize,
    message: Seq<char>,
)
    ensures
        retarget.pending_call() == (CompositionCall::CreateTargetForHwnd {
            device: retarget.device,
            hwnd: retarget.presentation_hwnd,
            topmost: true,
        }),
        retarget.begun(attempted).controller_hwnd == retarget.controller_hwnd,
        retarget.begun(attempted).device == retarget.device,
        retarget.begun(attempted).visual == retarget.visual,
        retarget.begun(attempted).previous == retarget.previous,
        retarget.begun(attempted).attempted == attempted,
        retarget.begun(attempted).presentation_hwnd == Some(retarget.presentation_hwnd),
        retarget.begun(attempted).phase == MovePhase::ClearPrevious,
        creation_failure(message) == ErrorView::OperationFailed(
            "CreateTargetForHwnd failed"@ + ": "@ + message,
        ),
{
}

/// The error of a move that failed names the operation and the first failure, and the
/// failure to put the visual back, if that failed too.
pub proof fn law_transition_error_names_its_failures(
    operation: Seq<char>,
    original: Seq<char>,
    rollback: Seq<char>,
)
    ensures
        transition_failure(operation, original, Ok(())) == ErrorView::OperationFailed(
            operation + ": "@ + original,
        ),
        transition_failure(operation, original, Err(rollback)) == ErrorView::OperationFailed(
            operation + ": "@ + original + "; restoring the last committed target also failed"@
                + ": "@ + rollback,
        ),
{
}

/// A visual that cannot be taken from its target stays there: nothing else is tried,
/// and the error says so.
pub proof fn law_move_ends_where_target_cannot_be_cleared(
    visual_move: MoveView,
    replies: Seq<ReplyView>,
    message: Seq<char>,
)
    requires
        visual_move.phase == MovePhase::ClearPrevious,
        replies.len() > 0,
        replies[0] == Err::<(), _>(message),
    ensures
        run(visual_move, replies) == Step::<MoveView, _>::Done(
            Err::<(), _>(
                ErrorView::OperationFailed(
                    (if visual_move.presentation_hwnd is Some {
                        "clearing the previous composition target failed"@
                    } else {
                        "detaching the presentation target failed"@
                    }) + ": "@ + message,
                ),
            ),
        ),
        calls_made(visual_move, replies) == seq![
            CompositionCall::ClearRoot { target: visual_move.previous },
        ],
{
}

/// A move whose visual cannot be put on the new target, or whose change cannot be
/// committed, is undone by the three calls that put the visual back. Of these, `undone`
/// succeed. The error names the first failure, and the failure to undo if there is one.
pub proof fn law_failed_move_is_undone_by_three_calls(
    visual_move: MoveView,
    replies: Seq<ReplyView>,
    at: int,
    undone: int,
    message: Seq<char>,
)
    requires
        visual_move.phase == MovePhase::ClearPrevious,
        at == 1 || at == 2,
        0 <= undone <= 3,
        replies.len() >= at + 1 + undone,
        forall|i: int| 0 <= i < at ==> #[trigger] replies[i] is Ok,
        replies[at] == Err::<(), _>(message),
        forall|i: int| at < i <= at + undone ==> #[trigger] replies[i] is Ok,
        undone < 3 ==> replies.len() > at + 1 + undone && replies[at + 1 + undone] is Err,
    ensures
        ({
            let tried = seq![
                CompositionCall::ClearRoot { target: visual_move.previous },
                CompositionCall::SetRoot {
                    target: visual_move.attempted,
                    visual: visual_move.visual,
                },
                CompositionCall::Commit { device: visual_move.device },
            ];
            let undoing = seq![
                CompositionCall::ClearRoot { target: visual_move.attempted },
                CompositionCall::SetRoot {
                    target: visual_move.previous,
                    visual: visual_move.visual,
                },
                CompositionCall::Commit { device: visual_move.device },
            ];
            let first = (if visual_move.presentation_hwnd is Some {
                "attaching the presentation target failed"@
            } else {
                "restoring the parking target failed"@
            }) + ": "@ + message;
            &&& run(visual_move, replies) == Step::<MoveView, _>::Done(
                Err::<(), _>(
                    ErrorView::OperationFailed(
                        if undone == 3 {
                            first
                        } else {
                            first + "; restoring the last committed target also failed"@ + ": "@
                                + replies[at + 1 + undone]->Err_0
                        },
                    ),
                ),
            )
            &&& calls_made(visual_move, replies) == tried.take(at + 1) + undoing.take(
                if undone == 3 {
                    3
                } else {
                    undone + 1
                },
            )
        }),
{
    reveal_with_fuel(run, 7);
    reveal_with_fuel(calls_made, 7);
    assert(replies[0] is Ok);
    assert(at == 2 ==> replies[1] is Ok);
    assert(undone > 0 ==> replies[at + 1] is Ok);
    assert(undone > 1 ==> replies[at + 2] is Ok);
    assert(undone > 2 ==> replies[at + 3] is Ok);
}

/// The table after a move: a move that succeeded is recorded for its controller, by the
/// target that the visual moved to and by the window of that target, or by neither if
/// the visual was parked. Nothing else is changed, and nothing by a move that is not
/// over or failed.
pub proof fn law_success_is_recorded(
    visual_move: MoveView,
    states: Map<isize, DesktopCompositionState>,
    replies: Seq<ReplyView>,
    other: isize,
)
    requires
        states.contains_key(visual_move.controller_hwnd),
    ensures
        ({
            let before = states[visual_move.controller_hwnd];
            let table = table_after_run(visual_move, states, replies);
            let after = table[visual_move.controller_hwnd];
            let success = run(visual_move, replies) == Step::<MoveView, _>::Done(
                Ok::<(), ErrorView>(()),
            );
            &&& table.dom() == states.dom()
            &&& other != visual_move.controller_hwnd ==> table[other] == states[other]
            &&& !success ==> table == states
            &&& success ==> match visual_move.presentation_hwnd {
                Some(hwnd) => {
                    &&& after.presentation_hwnd == hwnd
                    &&& after.presentation_target == Some(visual_move.attempted)
                },
                None => {
                    &&& after.presentation_hwnd == 0
                    &&& after.presentation_target is None
                },
            }
            &&& after.controller == before.controller
            &&& after.device == before.device
            &&& after.parking_target == before.parking_target
            &&& after.visual == before.visual
            &&& after.owner_thread == before.owner_thread
        }),
{
    law_table_changes_only_by_success(visual_move, states, replies);
    assert(table_after_run(visual_move, states, replies).dom() =~= states.dom());
}

} // verus!
