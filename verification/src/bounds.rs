//! Resizing the composition surface.

use crate::error;
use crate::error::DesktopCompositionError;
use crate::error::ErrorView;
use crate::state::CompositionStates;
use crate::state::DesktopCompositionState;
use crate::step;
use crate::step::Step;
use crate::window;
use crate::window::WindowInfo;
use vstd::prelude::*;

verus! {

/// A rectangle in physical pixels.
#[derive(Debug, Clone, Copy, PartialEq, Eq)]
pub struct Rect {
    pub left: i32,
    pub top: i32,
    pub right: i32,
    pub bottom: i32,
}

/// The rectangle of the given size at the origin.
pub open spec fn surface(width: i32, height: i32) -> Rect {
    Rect { left: 0, top: 0, right: width, bottom: height }
}

/// A call on a WebView2 controller.
#[derive(Debug, Clone, Copy, PartialEq, Eq)]
pub enum BoundsCall {
    /// Query the `ICoreWebView2Controller` of a composition controller.
    QueryController { composition_controller: isize },
    /// `controller.SetBounds(bounds)`
    SetBounds { controller: isize, bounds: Rect },
    /// `controller.NotifyParentWindowPositionChanged()`
    NotifyParentWindowPositionChanged { controller: isize },
}

/// The call that a resize waits for.
#[derive(Debug, Clone, Copy, PartialEq, Eq)]
pub enum BoundsPhase {
    Query,
    SetBounds { controller: isize },
    Notify { controller: isize },
}

/// A resize that has begun.
#[derive(Debug, Clone, Copy, PartialEq, Eq)]
pub struct BoundsUpdate {
    /// The composition controller whose surface is resized.
    pub composition_controller: isize,
    pub width: i32,
    pub height: i32,
    /// The call that the resize waits for.
    pub phase: BoundsPhase,
}

impl BoundsUpdate {
    /// The call that the resize waits for.
    pub open spec fn pending_call(self) -> BoundsCall {
        match self.phase {
            BoundsPhase::Query => BoundsCall::QueryController {
                composition_controller: self.composition_controller,
            },
            BoundsPhase::SetBounds { controller } => BoundsCall::SetBounds {
                controller,
                bounds: surface(self.width, self.height),
            },
            BoundsPhase::Notify { controller } => BoundsCall::NotifyParentWindowPositionChanged {
                controller,
            },
        }
    }

    /// What is reported if the call fails.
    pub open spec fn failure_text(self) -> Seq<char> {
        match self.phase {
            BoundsPhase::Query => "querying ICoreWebView2Controller failed"@,
            BoundsPhase::SetBounds { .. } => "SetBounds failed"@,
            BoundsPhase::Notify { .. } => "NotifyParentWindowPositionChanged failed"@,
        }
    }

    /// What the reply to the call leads to. The value of a query is the handle of
    /// the controller; the other calls give no value of interest.
    pub open spec fn answered(self, reply: Result<isize, Seq<char>>) -> Step<
        BoundsUpdate,
        Result<(), ErrorView>,
    > {
        match (reply, self.phase) {
            (Err(message), _) => Step::Done(
                Err(ErrorView::OperationFailed(error::labelled(self.failure_text(), message))),
            ),
            (Ok(controller), BoundsPhase::Query) => Step::Pending(
                BoundsUpdate { phase: BoundsPhase::SetBounds { controller }, ..self },
            ),
            (Ok(_), BoundsPhase::SetBounds { controller }) => Step::Pending(
                BoundsUpdate { phase: BoundsPhase::Notify { controller }, ..self },
            ),
            (Ok(_), BoundsPhase::Notify { .. }) => Step::Done(Ok(())),
        }
    }

    /// The call that the resize waits for.
    pub fn call(&self) -> (result: BoundsCall)
        ensures
            result == self.pending_call(),
    {
        match self.phase {
            BoundsPhase::Query => BoundsCall::QueryController {
                composition_controller: self.composition_controller,
            },
            BoundsPhase::SetBounds { controller } => BoundsCall::SetBounds {
                controller,
                bounds: Rect { left: 0, top: 0, right: self.width, bottom: self.height },
            },
            BoundsPhase::Notify { controller } => BoundsCall::NotifyParentWindowPositionChanged {
                controller,
            },
        }
    }

    /// Goes on with the reply to the call that the resize waits for.
    pub fn next(self, reply: Result<isize, String>) -> (result: Step<
        BoundsUpdate,
        Result<(), DesktopCompositionError>,
    >)
        ensures
            match result {
                Step::Pending(next) => self.answered(step::reply_view(reply))
                    == Step::<BoundsUpdate, Result<(), ErrorView>>::Pending(next),
                Step::Done(done) => self.answered(step::reply_view(reply))
                    == Step::<BoundsUpdate, Result<(), ErrorView>>::Done(error::outcome(done)),
            },
    {
        match (reply, self.phase) {
            (Err(message), BoundsPhase::Query) => Step::Done(
                Err(
                    error::operation_failed(
                        "querying ICoreWebView2Controller failed",
                        message.as_str(),
                    ),
                ),
            ),
            (Err(message), BoundsPhase::SetBounds { .. }) => Step::Done(
                Err(error::operation_failed("SetBounds failed", message.as_str())),
            ),
            (Err(message), BoundsPhase::Notify { .. }) => Step::Done(
                Err(
                    error::operation_failed(
                        "NotifyParentWindowPositionChanged failed",
                        message.as_str(),
                    ),
                ),
            ),
            (Ok(controller), BoundsPhase::Query) => Step::Pending(
                BoundsUpdate { phase: BoundsPhase::SetBounds { controller }, ..self },
            ),
            (Ok(_), BoundsPhase::SetBounds { controller }) => Step::Pending(
                BoundsUpdate { phase: BoundsPhase::Notify { controller }, ..self },
            ),
            (Ok(_), BoundsPhase::Notify { .. }) => Step::Done(Ok(())),
        }
    }
}

/// How resizing the composition surface begins.
pub open spec fn resize_begun(
    states: Map<isize, DesktopCompositionState>,
    controller: WindowInfo,
    current_thread: u32,
    width: i32,
    height: i32,
) -> Result<BoundsUpdate, ErrorView> {
    if width <= 0 || height <= 0 {
        Err(ErrorView::OperationFailed("WebView2 composition bounds must be positive"@))
    } else {
        match window::located(states, controller, current_thread) {
            Ok(hwnd) => Ok(
                BoundsUpdate {
                    composition_controller: states[hwnd].controller,
                    width,
                    height,
                    phase: BoundsPhase::Query,
                },
            ),
            Err(error) => Err(error),
        }
    }
}

/// Resize the WebView2 composition surface in physical pixels.
pub fn set_desktop_composition_bounds_for_hwnd(
    states: &CompositionStates,
    controller: &WindowInfo,
    current_thread: u32,
    width: i32,
    height: i32,
) -> (result: Result<BoundsUpdate, DesktopCompositionError>)
    ensures
        error::outcome(result) == resize_begun(
            states@,
            *controller,
            current_thread,
            width,
            height,
        ),
{
    if width <= 0 || height <= 0 {
        return Err(
            DesktopCompositionError::OperationFailed(
                "WebView2 composition bounds must be positive".to_owned(),
            ),
        );
    }
    match window::with_state(states, controller, current_thread) {
        Ok((_, state)) => Ok(
            BoundsUpdate {
                composition_controller: state.controller,
                width,
                height,
                phase: BoundsPhase::Query,
            },
        ),
        Err(error) => Err(error),
    }
}

/// Where a resize stands after `replies`.
pub open spec fn run(update: BoundsUpdate, replies: Seq<Result<isize, Seq<char>>>) -> Step<
    BoundsUpdate,
    Result<(), ErrorView>,
>
    decreases replies.len(),
{
    if replies.len() == 0 {
        Step::Pending(update)
    } else {
        match update.answered(replies[0]) {
            Step::Pending(next) => run(next, replies.skip(1)),
            Step::Done(result) => Step::Done(result),
        }
    }
}

/// The calls that were made for `replies` to come.
pub open spec fn calls_made(update: BoundsUpdate, replies: Seq<Result<isize, Seq<char>>>) -> Seq<
    BoundsCall,
>
    decreases replies.len(),
{
    if replies.len() == 0 {
        Seq::empty()
    } else {
        match update.answered(replies[0]) {
            Step::Pending(next) => seq![update.pending_call()] + calls_made(next, replies.skip(1)),
            Step::Done(_) => seq![update.pending_call()],
        }
    }
}

/// A resize succeeds exactly if its three calls succeed: the controller is queried,
/// its bounds are set to the size that was asked for, and it is told that its window
/// moved.
pub proof fn law_resize_succeeds_by_three_calls(
    update: BoundsUpdate,
    replies: Seq<Result<isize, Seq<char>>>,
)
    requires
        update.phase == BoundsPhase::Query,
    ensures
        run(update, replies) == Step::<BoundsUpdate, _>::Done(Ok::<(), ErrorView>(())) <==> {
            &&& replies.len() >= 3
            &&& replies[0] is Ok
            &&& replies[1] is Ok
            &&& replies[2] is Ok
        },
        run(update, replies) == Step::<BoundsUpdate, _>::Done(Ok::<(), ErrorView>(()))
            ==> calls_made(update, replies) == seq![
            BoundsCall::QueryController { composition_controller: update.composition_controller },
            BoundsCall::SetBounds {
                controller: replies[0]->Ok_0,
                bounds: surface(update.width, update.height),
            },
            BoundsCall::NotifyParentWindowPositionChanged { controller: replies[0]->Ok_0 },
        ],
{
    reveal_with_fuel(run, 4);
    reveal_with_fuel(calls_made, 4);
}

/// For every positive size and every controller that is located, a resize begins with
/// a query on the composition controller of the located state. If every call succeeds,
/// the surface of the controller that the query gave is the rectangle from the origin
/// to the width and the height that were asked for.
pub proof fn law_resize_sets_the_size_asked_for(
    states: Map<isize, DesktopCompositionState>,
    controller: WindowInfo,
    current_thread: u32,
    width: i32,
    height: i32,
    hwnd: isize,
    replies: Seq<Result<isize, Seq<char>>>,
)
    requires
        width > 0,
        height > 0,
        window::located(states, controller, current_thread) == Ok::<isize, ErrorView>(hwnd),
    ensures
        resize_begun(states, controller, current_thread, width, height) matches Ok(begun) && {
            let query = BoundsCall::QueryController {
                composition_controller: states[hwnd].controller,
            };
            &&& begun.pending_call() == query
            &&& replies.len() == 3 && replies[0] is Ok && replies[1] is Ok && replies[2] is Ok ==> {
                let calls = calls_made(begun, replies);
                &&& run(begun, replies) == Step::<BoundsUpdate, _>::Done(Ok::<(), ErrorView>(()))
                &&& calls.len() == 3
                &&& calls[0] == query
                &&& calls[1] matches BoundsCall::SetBounds { controller: resized, bounds } && {
                    &&& resized == replies[0]->Ok_0
                    &&& bounds.left == 0
                    &&& bounds.top == 0
                    &&& bounds.right == width
                    &&& bounds.bottom == height
                }
                &&& calls[2] == (BoundsCall::NotifyParentWindowPositionChanged {
                    controller: replies[0]->Ok_0,
                })
            }
        },
{
    reveal_with_fuel(run, 4);
    reveal_with_fuel(calls_made, 4);
}

/// A size that is not positive is refused before anything else is looked at. With a
/// positive size a resize is refused exactly if no controller is located, and for the
/// same reason.
pub proof fn law_resize_is_refused_exactly(
    states: Map<isize, DesktopCompositionState>,
    controller: WindowInfo,
    current_thread: u32,
    width: i32,
    height: i32,
)
    ensures
        width <= 0 || height <= 0 ==> resize_begun(
            states,
            controller,
            current_thread,
            width,
            height,
        ) == Err::<BoundsUpdate, _>(
            ErrorView::OperationFailed("WebView2 composition bounds must be positive"@),
        ),
        width > 0 && height > 0 ==> match window::located(states, controller, current_thread) {
            Ok(_) => resize_begun(states, controller, current_thread, width, height) is Ok,
            Err(error) => resize_begun(states, controller, current_thread, width, height)
                == Err::<BoundsUpdate, _>(error),
        },
{
}

/// The rectangle of a size lies at the origin and reaches to the size.
pub proof fn law_surface_reaches_to_its_size(width: i32, height: i32)
    ensures
        surface(width, height).left == 0,
        surface(width, height).top == 0,
        surface(width, height).right == width,
        surface(width, height).bottom == height,
{
}

/// A resize ends with the first of its calls that fails, and the error names that call
/// together with the message of the failure.
pub proof fn law_failed_resize_names_its_call(
    update: BoundsUpdate,
    replies: Seq<Result<isize, Seq<char>>>,
    at: int,
    message: Seq<char>,
)
    requires
        update.phase == BoundsPhase::Query,
        0 <= at <= 2,
        at < replies.len(),
        forall|i: int| 0 <= i < at ==> #[trigger] replies[i] is Ok,
        replies[at] == Err::<isize, _>(message),
    ensures
        ({
            let what = if at == 0 {
                "querying ICoreWebView2Controller failed"@
            } else if at == 1 {
                "SetBounds failed"@
            } else {
                "NotifyParentWindowPositionChanged failed"@
            };
            &&& run(update, replies) == Step::<BoundsUpdate, _>::Done(
                Err::<(), _>(ErrorView::OperationFailed(what + ": "@ + message)),
            )
            &&& calls_made(update, replies).len() == at + 1
        }),
{
    reveal_with_fuel(run, 4);
    reveal_with_fuel(calls_made, 4);
    assert(at > 0 ==> replies[0] is Ok);
    assert(at > 1 ==> replies[1] is Ok);
}

/// A resize by way of a parent is the same as one by way of the controller window.
pub proof fn law_resize_depends_on_located_controller_alone(
    states: Map<isize, DesktopCompositionState>,
    controller: WindowInfo,
    own: WindowInfo,
    current_thread: u32,
    width: i32,
    height: i32,
)
    requires
        window::located(states, controller, current_thread) == Ok::<isize, ErrorView>(own.hwnd),
        own.is_window,
        own.owner_thread == current_thread,
    ensures
        resize_begun(states, controller, current_thread, width, height) == resize_begun(
            states,
            own,
            current_thread,
            width,
            height,
        ),
{
    window::law_located_controller_is_located_by_its_window(
        states,
        controller,
        own,
        current_thread,
    );
}

} // verus!
