//! Creating a composition controller together with its DirectComposition graph.

use crate::registration::PreparedDesktopComposition;
use crate::state::DesktopCompositionState;
use crate::step::Step;
use vstd::prelude::*;

verus! {

/// The code of the failure of a callback that was given no object.
pub const E_POINTER: i32 = -2147467261;

/// The code of the failure of a callback whose result nobody takes.
pub const E_UNEXPECTED: i32 = -2147418113;

/// A background colour as a controller takes it.
#[derive(Debug, Clone, Copy, PartialEq, Eq)]
pub struct BackgroundColor {
    pub red: u8,
    pub green: u8,
    pub blue: u8,
    pub alpha: u8,
}

/// The background is either fully transparent or fully opaque.
pub open spec fn solid(color: (u8, u8, u8, u8)) -> BackgroundColor {
    BackgroundColor {
        red: color.0,
        green: color.1,
        blue: color.2,
        alpha: if color.3 == 0 {
            0
        } else {
            255
        },
    }
}

/// A call that the creation of a controller is made of, with the handles of the
/// objects that it is made on.
#[derive(Debug, Clone, Copy, PartialEq, Eq)]
pub enum PrepareCall {
    /// Query the `ICoreWebView2Environment10` of an environment.
    QueryEnvironment { environment: isize },
    /// `environment.CreateCoreWebView2ControllerOptions()`
    CreateControllerOptions { environment: isize },
    /// Query the `ICoreWebView2ControllerOptions3` of controller options.
    QueryControllerOptions { options: isize },
    /// `options.SetDefaultBackgroundColor(color)`
    SetDefaultBackgroundColor { options: isize, color: BackgroundColor },
    /// `options.SetIsInPrivateModeEnabled(enabled)`
    SetIsInPrivateModeEnabled { options: isize, enabled: bool },
    /// `environment.CreateCoreWebView2CompositionControllerWithOptions(hwnd, options, ..)`
    CreateCompositionController { environment: isize, hwnd: isize, options: isize },
    /// Pump messages until the composition controller is handed over.
    AwaitCompositionController,
    /// Query the `ICoreWebView2Controller` of a composition controller.
    QueryController { composition_controller: isize },
    /// `DCompositionCreateDevice2(None)`
    CreateDevice,
    /// `device.CreateTargetForHwnd(hwnd, topmost)`
    CreateTargetForHwnd { device: isize, hwnd: isize, topmost: bool },
    /// `device.CreateVisual()`
    CreateVisual { device: isize },
    /// `target.SetRoot(visual)`
    SetRoot { target: isize, visual: isize },
    /// Query the `IUnknown` of a visual.
    QueryUnknown { visual: isize },
    /// `composition_controller.SetRootVisualTarget(visual)`
    SetRootVisualTarget { composition_controller: isize, visual: isize },
    /// `device.Commit()`
    Commit { device: isize },
}

/// The call that the creation of a controller waits for.
#[derive(Debug, Clone, Copy, PartialEq, Eq)]
pub enum PreparePhase {
    QueryEnvironment { environment: isize },
    CreateOptions,
    QueryOptions { color: BackgroundColor },
    SetBackground { options: isize, color: BackgroundColor },
    SetPrivateMode,
    CreateController,
    AwaitController,
    QueryController,
    CreateDevice,
    CreateParkingTarget,
    CreateVisual,
    SetRoot,
    QueryUnknown,
    SetRootVisualTarget { unknown: isize },
    Commit,
}

/// The creation of a controller that has begun. A handle is 0 until its object was
/// handed out.
#[derive(Debug, Clone, Copy, PartialEq, Eq)]
pub struct Preparation {
    /// The window that the controller is created for.
    pub controller_hwnd: isize,
    /// Whether the controller keeps nothing of the session.
    pub incognito: bool,
    /// The background colour that was asked for.
    pub background: Option<(u8, u8, u8, u8)>,
    /// The thread that creates the controller.
    pub owner_thread: u32,
    /// The environment, as an `ICoreWebView2Environment10`.
    pub environment: isize,
    /// The options that the controller is created with.
    pub options: isize,
    /// The composition controller.
    pub composition_controller: isize,
    /// The composition controller, as an `ICoreWebView2Controller`.
    pub controller: isize,
    /// The DirectComposition device.
    pub device: isize,
    /// The target of the controller window.
    pub parking_target: isize,
    /// The visual that the WebView draws to.
    pub visual: isize,
    /// The call that the creation waits for.
    pub phase: PreparePhase,
}

impl Preparation {
    /// The creation waiting for another call.
    pub open spec fn at(self, phase: PreparePhase) -> Preparation {
        Preparation { phase, ..self }
    }

    /// The call that the creation waits for.
    pub open spec fn pending_call(self) -> PrepareCall {
        match self.phase {
            PreparePhase::QueryEnvironment { environment } => PrepareCall::QueryEnvironment {
                environment,
            },
            PreparePhase::CreateOptions => PrepareCall::CreateControllerOptions {
                environment: self.environment,
            },
            PreparePhase::QueryOptions { .. } => PrepareCall::QueryControllerOptions {
                options: self.options,
            },
            PreparePhase::SetBackground {
                options,
                color,
            } => PrepareCall::SetDefaultBackgroundColor { options, color },
            PreparePhase::SetPrivateMode => PrepareCall::SetIsInPrivateModeEnabled {
                options: self.options,
                enabled: self.incognito,
            },
            PreparePhase::CreateController => PrepareCall::CreateCompositionController {
                environment: self.environment,
                hwnd: self.controller_hwnd,
                options: self.options,
            },
            PreparePhase::AwaitController => PrepareCall::AwaitCompositionController,
            PreparePhase::QueryController => PrepareCall::QueryController {
                composition_controller: self.composition_controller,
            },
            PreparePhase::CreateDevice => PrepareCall::CreateDevice,
            PreparePhase::CreateParkingTarget => PrepareCall::CreateTargetForHwnd {
                device: self.device,
                hwnd: self.controller_hwnd,
                topmost: true,
            },
            PreparePhase::CreateVisual => PrepareCall::CreateVisual { device: self.device },
            PreparePhase::SetRoot => PrepareCall::SetRoot {
                target: self.parking_target,
                visual: self.visual,
            },
            PreparePhase::QueryUnknown => PrepareCall::QueryUnknown { visual: self.visual },
            PreparePhase::SetRootVisualTarget { unknown } => PrepareCall::SetRootVisualTarget {
                composition_controller: self.composition_controller,
                visual: unknown,
            },
            PreparePhase::Commit => PrepareCall::Commit { device: self.device },
        }
    }

    /// The controller once all calls have succeeded. Its visual is parked.
    pub open spec fn prepared(self) -> PreparedDesktopComposition {
        PreparedDesktopComposition {
            controller_hwnd: self.controller_hwnd,
            controller: self.controller,
            state: DesktopCompositionState {
                controller: self.composition_controller,
                device: self.device,
                parking_target: self.parking_target,
                visual: self.visual,
                presentation_target: None,
                presentation_hwnd: 0,
                owner_thread: self.owner_thread,
            },
        }
    }

    /// What a successful call leads to, where `value` is the handle of the object
    /// that the call handed out, if it handed out one.
    pub open spec fn succeeded(self, value: isize) -> Step<
        Preparation,
        PreparedDesktopComposition,
    > {
        match self.phase {
            PreparePhase::QueryEnvironment { .. } => Step::Pending(
                Preparation { environment: value, ..self }.at(PreparePhase::CreateOptions),
            ),
            PreparePhase::CreateOptions => Step::Pending(
                Preparation { options: value, ..self }.at(
                    match self.background {
                        Some(color) => PreparePhase::QueryOptions { color: solid(color) },
                        None => PreparePhase::SetPrivateMode,
                    },
                ),
            ),
            PreparePhase::QueryOptions { color } => Step::Pending(
                self.at(PreparePhase::SetBackground { options: value, color }),
            ),
            PreparePhase::SetBackground { .. } => Step::Pending(
                self.at(PreparePhase::SetPrivateMode),
            ),
            PreparePhase::SetPrivateMode => Step::Pending(self.at(PreparePhase::CreateController)),
            PreparePhase::CreateController => Step::Pending(
                self.at(PreparePhase::AwaitController),
            ),
            PreparePhase::AwaitController => Step::Pending(
                Preparation { composition_controller: value, ..self }.at(
                    PreparePhase::QueryController,
                ),
            ),
            PreparePhase::QueryController => Step::Pending(
                Preparation { controller: value, ..self }.at(PreparePhase::CreateDevice),
            ),
            PreparePhase::CreateDevice => Step::Pending(
                Preparation { device: value, ..self }.at(PreparePhase::CreateParkingTarget),
            ),
            PreparePhase::CreateParkingTarget => Step::Pending(
                Preparation { parking_target: value, ..self }.at(PreparePhase::CreateVisual),
            ),
            PreparePhase::CreateVisual => Step::Pending(
                Preparation { visual: value, ..self }.at(PreparePhase::SetRoot),
            ),
            PreparePhase::SetRoot => Step::Pending(self.at(PreparePhase::QueryUnknown)),
            PreparePhase::QueryUnknown => Step::Pending(
                self.at(PreparePhase::SetRootVisualTarget { unknown: value }),
            ),
            PreparePhase::SetRootVisualTarget { .. } => Step::Pending(
                self.at(PreparePhase::Commit),
            ),
            PreparePhase::Commit => Step::Done(self.prepared()),
        }
    }

    /// What the reply to the call leads to. The first failure ends the creation.
    pub open spec fn answered<E>(self, reply: Result<isize, E>) -> Step<
        Preparation,
        Result<PreparedDesktopComposition, E>,
    > {
        match reply {
            Ok(value) => match self.succeeded(value) {
                Step::Pending(next) => Step::Pending(next),
                Step::Done(prepared) => Step::Done(Ok(prepared)),
            },
            Err(error) => Step::Done(Err(error)),
        }
    }

    /// The call that the creation waits for.
    pub fn call(&self) -> (result: PrepareCall)
        ensures
            result == self.pending_call(),
    {
        match self.phase {
            PreparePhase::QueryEnvironment { environment } => PrepareCall::QueryEnvironment {
                environment,
            },
            PreparePhase::CreateOptions => PrepareCall::CreateControllerOptions {
                environment: self.environment,
            },
            PreparePhase::QueryOptions { .. } => PrepareCall::QueryControllerOptions {
                options: self.options,
            },
            PreparePhase::SetBackground {
                options,
                color,
            } => PrepareCall::SetDefaultBackgroundColor { options, color },
            PreparePhase::SetPrivateMode => PrepareCall::SetIsInPrivateModeEnabled {
                options: self.options,
                enabled: self.incognito,
            },
            PreparePhase::CreateController => PrepareCall::CreateCompositionController {
                environment: self.environment,
                hwnd: self.controller_hwnd,
                options: self.options,
            },
            PreparePhase::AwaitController => PrepareCall::AwaitCompositionController,
            PreparePhase::QueryController => PrepareCall::QueryController {
                composition_controller: self.composition_controller,
            },
            PreparePhase::CreateDevice => PrepareCall::CreateDevice,
            PreparePhase::CreateParkingTarget => PrepareCall::CreateTargetForHwnd {
                device: self.device,
                hwnd: self.controller_hwnd,
                topmost: true,
            },
            PreparePhase::CreateVisual => PrepareCall::CreateVisual { device: self.device },
            PreparePhase::SetRoot => PrepareCall::SetRoot {
                target: self.parking_target,
                visual: self.visual,
            },
            PreparePhase::QueryUnknown => PrepareCall::QueryUnknown { visual: self.visual },
            PreparePhase::SetRootVisualTarget { unknown } => PrepareCall::SetRootVisualTarget {
                composition_controller: self.composition_controller,
                visual: unknown,
            },
            PreparePhase::Commit => PrepareCall::Commit { device: self.device },
        }
    }

    /// Goes on with the reply to the call that the creation waits for: the handle
    /// of the object that was handed out (any value where none was), or a failure.
    pub fn next<E>(self, reply: Result<isize, E>) -> (result: Step<
        Preparation,
        Result<PreparedDesktopComposition, E>,
    >)
        ensures
            result == self.answered(reply),
    {
        let value: isize = match reply {
            Ok(value) => value,
            Err(error) => return Step::Done(Err(error)),
        };
        let mut next: Preparation = self;
        match self.phase {
            PreparePhase::QueryEnvironment { .. } => {
                next.environment = value;
                next.phase = PreparePhase::CreateOptions;
            },
            PreparePhase::CreateOptions => {
                next.options = value;
                next.phase = match self.background {
                    Some(color) => PreparePhase::QueryOptions { color: solid_color(color) },
                    None => PreparePhase::SetPrivateMode,
                };
            },
            PreparePhase::QueryOptions { color } => {
                next.phase = PreparePhase::SetBackground { options: value, color };
            },
            PreparePhase::SetBackground { .. } => {
                next.phase = PreparePhase::SetPrivateMode;
            },
            PreparePhase::SetPrivateMode => {
                next.phase = PreparePhase::CreateController;
            },
            PreparePhase::CreateController => {
                next.phase = PreparePhase::AwaitController;
            },
            PreparePhase::AwaitController => {
                next.composition_controller = value;
                next.phase = PreparePhase::QueryController;
            },
            PreparePhase::QueryController => {
                next.controller = value;
                next.phase = PreparePhase::CreateDevice;
            },
            PreparePhase::CreateDevice => {
                next.device = value;
                next.phase = PreparePhase::CreateParkingTarget;
            },
            PreparePhase::CreateParkingTarget => {
                next.parking_target = value;
                next.phase = PreparePhase::CreateVisual;
            },
            PreparePhase::CreateVisual => {
                next.visual = value;
                next.phase = PreparePhase::SetRoot;
            },
            PreparePhase::SetRoot => {
                next.phase = PreparePhase::QueryUnknown;
            },
            PreparePhase::QueryUnknown => {
                next.phase = PreparePhase::SetRootVisualTarget { unknown: value };
            },
            PreparePhase::SetRootVisualTarget { .. } => {
                next.phase = PreparePhase::Commit;
            },
            PreparePhase::Commit => {
                return Step::Done(
                    Ok(
                        PreparedDesktopComposition {
                            controller_hwnd: self.controller_hwnd,
                            controller: self.controller,
                            state: DesktopCompositionState {
                                controller: self.composition_controller,
                                device: self.device,
                                parking_target: self.parking_target,
                                visual: self.visual,
                                presentation_target: None,
                                presentation_hwnd: 0,
                                owner_thread: self.owner_thread,
                            },
                        },
                    ),
                );
            },
        }
        Step::Pending(next)
    }
}

/// The colour that a controller is given for a background colour.
pub fn solid_color(color: (u8, u8, u8, u8)) -> (result: BackgroundColor)
    ensures
        result == solid(color),
{
    let (red, green, blue, mut alpha) = color;
    if alpha != 0 {
        alpha = 255;
    }
    BackgroundColor { red, green, blue, alpha }
}

/// What the completion handler makes of a controller that it was given, or not.
pub open spec fn completion<T>(controller: Option<T>) -> Result<T, i32> {
    match controller {
        Some(controller) => Ok(controller),
        None => Err(E_POINTER),
    }
}

/// What the completion handler answers, by whether what it passed on was taken.
pub open spec fn completion_answer(taken: bool) -> Result<(), i32> {
    if taken {
        Ok(())
    } else {
        Err(E_UNEXPECTED)
    }
}

/// What the completion handler passes on: the controller that was created, or the
/// code of a failure where it was given none.
pub fn completed_controller<T>(controller: Option<T>) -> (result: Result<T, i32>)
    ensures
        result == match controller {
            Some(controller) => Ok(controller),
            None => Err(E_POINTER),
        },
        result == completion(controller),
{
    match controller {
        Some(controller) => Ok(controller),
        None => Err(E_POINTER),
    }
}

/// What the completion handler returns, by whether anyone took what it passed on.
pub fn completion_status(taken: bool) -> (result: Result<(), i32>)
    ensures
        result == if taken {
            Ok(())
        } else {
            Err(E_UNEXPECTED)
        },
        result == completion_answer(taken),
{
    if taken {
        Ok(())
    } else {
        Err(E_UNEXPECTED)
    }
}

/// The creation of a controller at its first call.
pub open spec fn preparation_begun(
    controller_hwnd: isize,
    environment: isize,
    incognito: bool,
    background_color: Option<(u8, u8, u8, u8)>,
    current_thread: u32,
) -> Preparation {
    Preparation {
        controller_hwnd,
        incognito,
        background: background_color,
        owner_thread: current_thread,
        environment: 0,
        options: 0,
        composition_controller: 0,
        controller: 0,
        device: 0,
        parking_target: 0,
        visual: 0,
        phase: PreparePhase::QueryEnvironment { environment },
    }
}

/// Begins to create a composition controller for the window `controller_hwnd`, with
/// a visual that is parked in that window.
pub fn prepare_desktop_composition(
    controller_hwnd: isize,
    environment: isize,
    incognito: bool,
    background_color: Option<(u8, u8, u8, u8)>,
    current_thread: u32,
) -> (result: Preparation)
    ensures
        result == preparation_begun(
            controller_hwnd,
            environment,
            incognito,
            background_color,
            current_thread,
        ),
{
    Preparation {
        controller_hwnd,
        incognito,
        background: background_color,
        owner_thread: current_thread,
        environment: 0,
        options: 0,
        composition_controller: 0,
        controller: 0,
        device: 0,
        parking_target: 0,
        visual: 0,
        phase: PreparePhase::QueryEnvironment { environment },
    }
}

/// Where the creation of a controller stands after `replies`.
pub open spec fn run<E>(preparation: Preparation, replies: Seq<Result<isize, E>>) -> Step<
    Preparation,
    Result<PreparedDesktopComposition, E>,
>
    decreases replies.len(),
{
    if replies.len() == 0 {
        Step::Pending(preparation)
    } else {
        match preparation.answered(replies[0]) {
            Step::Pending(next) => run(next, replies.skip(1)),
            Step::Done(result) => Step::Done(result),
        }
    }
}

/// The calls that were made for `replies` to come.
pub open spec fn calls_made<E>(preparation: Preparation, replies: Seq<Result<isize, E>>) -> Seq<
    PrepareCall,
>
    decreases replies.len(),
{
    if replies.len() == 0 {
        Seq::empty()
    } else {
        match preparation.answered(replies[0]) {
            Step::Pending(next) => seq![preparation.pending_call()] + calls_made(
                next,
                replies.skip(1),
            ),
            Step::Done(_) => seq![preparation.pending_call()],
        }
    }
}

/// The calls that create the DirectComposition graph of a controller, in order,
/// where `values` are the handles that they hand out.
pub open spec fn graph_calls(
    controller_hwnd: isize,
    composition_controller: isize,
    values: Seq<isize>,
) -> Seq<PrepareCall> {
    let (device, target, visual, unknown) = (values[0], values[1], values[2], values[4]);
    seq![
        PrepareCall::CreateDevice,
        PrepareCall::CreateTargetForHwnd { device, hwnd: controller_hwnd, topmost: true },
        PrepareCall::CreateVisual { device },
        PrepareCall::SetRoot { target, visual },
        PrepareCall::QueryUnknown { visual },
        PrepareCall::SetRootVisualTarget { composition_controller, visual: unknown },
        PrepareCall::Commit { device },
    ]
}

/// The calls that create a controller from an environment and from options, together
/// with its graph, in order, where `values` are the handles that they hand out.
pub open spec fn controller_calls(
    controller_hwnd: isize,
    environment: isize,
    options: isize,
    incognito: bool,
    values: Seq<isize>,
) -> Seq<PrepareCall> {
    seq![
        PrepareCall::SetIsInPrivateModeEnabled { options, enabled: incognito },
        PrepareCall::CreateCompositionController { environment, hwnd: controller_hwnd, options },
        PrepareCall::AwaitCompositionController,
        PrepareCall::QueryController { composition_controller: values[2] },
    ] + graph_calls(controller_hwnd, values[2], values.skip(4))
}

/// All calls that create a controller, in order, where `values` are the handles that
/// they hand out. The two calls on the background colour are made only where a
/// colour was asked for; their values come third and fourth then.
pub open spec fn creation_calls(
    controller_hwnd: isize,
    environment: isize,
    incognito: bool,
    background_color: Option<(u8, u8, u8, u8)>,
    values: Seq<isize>,
) -> Seq<PrepareCall> {
    let background = match background_color {
        Some(color) => seq![
            PrepareCall::QueryControllerOptions { options: values[1] },
            PrepareCall::SetDefaultBackgroundColor { options: values[2], color: solid(color) },
        ],
        None => Seq::empty(),
    };
    seq![
        PrepareCall::QueryEnvironment { environment },
        PrepareCall::CreateControllerOptions { environment: values[0] },
    ] + background + controller_calls(
        controller_hwnd,
        values[0],
        values[1],
        incognito,
        values.skip(2 + background.len() as int),
    )
}

/// The replies are those of calls that succeed with `values`.
pub open spec fn all_succeed<E>(replies: Seq<Result<isize, E>>, values: Seq<isize>) -> bool {
    &&& replies.len() == values.len()
    &&& forall|i: int|
        0 <= i < values.len() ==> #[trigger] replies[i] == Ok::<isize, E>(values[i])
}

/// One successful call: what the run and its calls are made of.
proof fn lemma_successful_call<E>(
    preparation: Preparation,
    replies: Seq<Result<isize, E>>,
    values: Seq<isize>,
)
    requires
        all_succeed(replies, values),
        values.len() > 0,
    ensures
        all_succeed(replies.skip(1), values.skip(1)),
        match preparation.succeeded(values[0]) {
            Step::Pending(next) => {
                &&& run(preparation, replies) == run(next, replies.skip(1))
                &&& calls_made(preparation, replies) == seq![preparation.pending_call()]
                    + calls_made(next, replies.skip(1))
            },
            Step::Done(prepared) => {
                &&& run(preparation, replies) == Step::<Preparation, _>::Done(
                    Ok::<_, E>(prepared),
                )
                &&& calls_made(preparation, replies) == seq![preparation.pending_call()]
            },
        },
{
    assert(replies[0] == Ok::<isize, E>(values[0]));
    assert forall|i: int| 0 <= i < values.len() - 1 implies #[trigger] replies.skip(1)[i]
        == Ok::<isize, E>(values.skip(1)[i]) by {
        assert(replies[i + 1] == Ok::<isize, E>(values[i + 1]));
    }
}

/// From the device on, the calls are those of `graph_calls`.
proof fn lemma_graph_is_created<E>(
    preparation: Preparation,
    replies: Seq<Result<isize, E>>,
    values: Seq<isize>,
)
    requires
        preparation.phase == PreparePhase::CreateDevice,
        all_succeed(replies, values),
        values.len() == 7,
    ensures
        run(preparation, replies) == Step::<Preparation, _>::Done(
            Ok::<_, E>(
                Preparation {
                    device: values[0],
                    parking_target: values[1],
                    visual: values[2],
                    ..preparation
                }.prepared(),
            ),
        ),
        calls_made(preparation, replies) == graph_calls(
            preparation.controller_hwnd,
            preparation.composition_controller,
            values,
        ),
{
    lemma_successful_call(preparation, replies, values);
    let (p1, r1, v1) = (
        preparation.succeeded(values[0])->Pending_0,
        replies.skip(1),
        values.skip(1),
    );
    lemma_successful_call(p1, r1, v1);
    let (p2, r2, v2) = (p1.succeeded(v1[0])->Pending_0, r1.skip(1), v1.skip(1));
    lemma_successful_call(p2, r2, v2);
    let (p3, r3, v3) = (p2.succeeded(v2[0])->Pending_0, r2.skip(1), v2.skip(1));
    lemma_successful_call(p3, r3, v3);
    let (p4, r4, v4) = (p3.succeeded(v3[0])->Pending_0, r3.skip(1), v3.skip(1));
    lemma_successful_call(p4, r4, v4);
    let (p5, r5, v5) = (p4.succeeded(v4[0])->Pending_0, r4.skip(1), v4.skip(1));
    lemma_successful_call(p5, r5, v5);
    let (p6, r6, v6) = (p5.succeeded(v5[0])->Pending_0, r5.skip(1), v5.skip(1));
    lemma_successful_call(p6, r6, v6);
}

/// From the options on, the calls are those of `controller_calls`.
proof fn lemma_controller_is_created<E>(
    preparation: Preparation,
    replies: Seq<Result<isize, E>>,
    values: Seq<isize>,
)
    requires
        preparation.phase == PreparePhase::SetPrivateMode,
        all_succeed(replies, values),
        values.len() == 11,
    ensures
        run(preparation, replies) == Step::<Preparation, _>::Done(
            Ok::<_, E>(
                Preparation {
                    composition_controller: values[2],
                    controller: values[3],
                    device: values[4],
                    parking_target: values[5],
                    visual: values[6],
                    ..preparation
                }.prepared(),
            ),
        ),
        calls_made(preparation, replies) == controller_calls(
            preparation.controller_hwnd,
            preparation.environment,
            preparation.options,
            preparation.incognito,
            values,
        ),
{
    lemma_successful_call(preparation, replies, values);
    let (p1, r1, v1) = (
        preparation.succeeded(values[0])->Pending_0,
        replies.skip(1),
        values.skip(1),
    );
    lemma_successful_call(p1, r1, v1);
    let (p2, r2, v2) = (p1.succeeded(v1[0])->Pending_0, r1.skip(1), v1.skip(1));
    lemma_successful_call(p2, r2, v2);
    let (p3, r3, v3) = (p2.succeeded(v2[0])->Pending_0, r2.skip(1), v2.skip(1));
    lemma_successful_call(p3, r3, v3);
    let (p4, r4, v4) = (p3.succeeded(v3[0])->Pending_0, r3.skip(1), v3.skip(1));
    lemma_graph_is_created(p4, r4, v4);
    assert(v4 =~= values.skip(4));
}

/// From the background colour on, two calls come before those of `controller_calls`.
proof fn lemma_background_is_set<E>(
    preparation: Preparation,
    color: BackgroundColor,
    replies: Seq<Result<isize, E>>,
    values: Seq<isize>,
)
    requires
        preparation.phase == (PreparePhase::QueryOptions { color }),
        all_succeed(replies, values),
        values.len() == 13,
    ensures
        run(preparation, replies) == Step::<Preparation, _>::Done(
            Ok::<_, E>(
                Preparation {
                    composition_controller: values[4],
                    controller: values[5],
                    device: values[6],
                    parking_target: values[7],
                    visual: values[8],
                    ..preparation
                }.prepared(),
            ),
        ),
        calls_made(preparation, replies) == seq![
            PrepareCall::QueryControllerOptions { options: preparation.options },
            PrepareCall::SetDefaultBackgroundColor { options: values[0], color },
        ] + controller_calls(
            preparation.controller_hwnd,
            preparation.environment,
            preparation.options,
            preparation.incognito,
            values.skip(2),
        ),
{
    lemma_successful_call(preparation, replies, values);
    let (p1, r1, v1) = (
        preparation.succeeded(values[0])->Pending_0,
        replies.skip(1),
        values.skip(1),
    );
    lemma_successful_call(p1, r1, v1);
    let (p2, r2, v2) = (p1.succeeded(v1[0])->Pending_0, r1.skip(1), v1.skip(1));
    lemma_controller_is_created(p2, r2, v2);
    assert(v2 =~= values.skip(2));
}

/// If every call succeeds, the calls are exactly those of `creation_calls`, and the
/// controller is made of the objects that they handed out, with its visual parked.
pub proof fn law_creation_makes_its_calls<E>(
    controller_hwnd: isize,
    environment: isize,
    incognito: bool,
    background_color: Option<(u8, u8, u8, u8)>,
    current_thread: u32,
    values: Seq<isize>,
    replies: Seq<Result<isize, E>>,
)
    requires
        values.len() == if background_color is Some {
            15int
        } else {
            13
        },
        all_succeed(replies, values),
    ensures
        ({
            let begun = preparation_begun(
                controller_hwnd,
                environment,
                incognito,
                background_color,
                current_thread,
            );
            let rest = values.skip(values.len() - 11);
            let prepared = PreparedDesktopComposition {
                controller_hwnd,
                controller: rest[3],
                state: DesktopCompositionState {
                    controller: rest[2],
                    device: rest[4],
                    parking_target: rest[5],
                    visual: rest[6],
                    presentation_target: None,
                    presentation_hwnd: 0,
                    owner_thread: current_thread,
                },
            };
            &&& run(begun, replies) == Step::<Preparation, _>::Done(Ok::<_, E>(prepared))
            &&& calls_made(begun, replies) == creation_calls(
                controller_hwnd,
                environment,
                incognito,
                background_color,
                values,
            )
            &&& prepared.state.well_formed()
        }),
{
    let preparation = preparation_begun(
        controller_hwnd,
        environment,
        incognito,
        background_color,
        current_thread,
    );
    lemma_successful_call(preparation, replies, values);
    let (p1, r1, v1) = (
        preparation.succeeded(values[0])->Pending_0,
        replies.skip(1),
        values.skip(1),
    );
    lemma_successful_call(p1, r1, v1);
    let (p2, r2, v2) = (p1.succeeded(v1[0])->Pending_0, r1.skip(1), v1.skip(1));
    assert(v2 =~= values.skip(2));
    match background_color {
        Some(color) => {
            lemma_background_is_set(p2, solid(color), r2, v2);
            assert(v2.skip(2) =~= values.skip(4));
        },
        None => {
            lemma_controller_is_created(p2, r2, v2);
        },
    }
    assert(calls_made(preparation, replies) =~= creation_calls(
        controller_hwnd,
        environment,
        incognito,
        background_color,
        values,
    ));
}

/// The first failure ends the creation with that failure; no call is made after it.
pub proof fn law_creation_stops_at_first_failure<E>(
    preparation: Preparation,
    replies: Seq<Result<isize, E>>,
    at: int,
    error: E,
)
    requires
        0 <= at < replies.len(),
        run(preparation, replies.take(at)) is Pending,
        replies[at] == Err::<isize, E>(error),
    ensures
        run(preparation, replies) == Step::<Preparation, _>::Done(
            Err::<PreparedDesktopComposition, E>(error),
        ),
        calls_made(preparation, replies).len() == at + 1,
    decreases at,
{
    if at > 0 {
        assert(replies.take(at)[0] == replies[0]);
        match preparation.answered(replies[0]) {
            Step::Pending(next) => {
                assert(replies.take(at).skip(1) =~= replies.skip(1).take(at - 1));
                law_creation_stops_at_first_failure(next, replies.skip(1), at - 1, error);
            },
            Step::Done(_) => {},
        }
    }
}

/// The colour that a controller is given has the red, the green and the blue that were
/// asked for. It is transparent exactly if full transparency was asked for, and opaque
/// otherwise.
pub proof fn law_background_keeps_its_colour(color: (u8, u8, u8, u8))
    ensures
        solid(color).red == color.0,
        solid(color).green == color.1,
        solid(color).blue == color.2,
        color.3 == 0 ==> solid(color).alpha == 0,
        color.3 != 0 ==> solid(color).alpha == 255,
{
}

/// The calls that create a controller without a background colour, one by one, and the
/// controller that they make, where `values` are the handles that they hand out.
pub proof fn law_creation_without_background<E>(
    controller_hwnd: isize,
    environment: isize,
    incognito: bool,
    current_thread: u32,
    values: Seq<isize>,
    replies: Seq<Result<isize, E>>,
)
    requires
        values.len() == 13,
        all_succeed(replies, values),
    ensures
        ({
            let begun = preparation_begun(
                controller_hwnd,
                environment,
                incognito,
                None,
                current_thread,
            );
            &&& calls_made(begun, replies) == seq![
                PrepareCall::QueryEnvironment { environment },
                PrepareCall::CreateControllerOptions { environment: values[0] },
                PrepareCall::SetIsInPrivateModeEnabled { options: values[1], enabled: incognito },
                PrepareCall::CreateCompositionController {
                    environment: values[0],
                    hwnd: controller_hwnd,
                    options: values[1],
                },
                PrepareCall::AwaitCompositionController,
                PrepareCall::QueryController { composition_controller: values[4] },
                PrepareCall::CreateDevice,
                PrepareCall::CreateTargetForHwnd {
                    device: values[6],
                    hwnd: controller_hwnd,
                    topmost: true,
                },
                PrepareCall::CreateVisual { device: values[6] },
                PrepareCall::SetRoot { target: values[7], visual: values[8] },
                PrepareCall::QueryUnknown { visual: values[8] },
                PrepareCall::SetRootVisualTarget {
                    composition_controller: values[4],
                    visual: values[10],
                },
                PrepareCall::Commit { device: values[6] },
            ]
            &&& run(begun, replies) matches Step::Done(Ok(prepared)) && {
                &&& prepared.controller_hwnd == controller_hwnd
                &&& prepared.controller == values[5]
                &&& prepared.state.controller == values[4]
                &&& prepared.state.device == values[6]
                &&& prepared.state.parking_target == values[7]
                &&& prepared.state.visual == values[8]
                &&& prepared.state.presentation_target is None
                &&& prepared.state.presentation_hwnd == 0
                &&& prepared.state.owner_thread == current_thread
            }
        }),
{
    law_creation_makes_its_calls(
        controller_hwnd,
        environment,
        incognito,
        None,
        current_thread,
        values,
        replies,
    );
}

/// The calls that create a controller with a background colour, one by one, and the
/// controller that they make, where `values` are the handles that they hand out. The
/// fourth call sets the colour: the red, the green and the blue are those asked for, and
/// the alpha is 0 if 0 was asked for, and 255 otherwise.
pub proof fn law_creation_with_background<E>(
    controller_hwnd: isize,
    environment: isize,
    incognito: bool,
    color: (u8, u8, u8, u8),
    current_thread: u32,
    values: Seq<isize>,
    replies: Seq<Result<isize, E>>,
)
    requires
        values.len() == 15,
        all_succeed(replies, values),
    ensures
        ({
            let begun = preparation_begun(
                controller_hwnd,
                environment,
                incognito,
                Some(color),
                current_thread,
            );
            &&& calls_made(begun, replies) == seq![
                PrepareCall::QueryEnvironment { environment },
                PrepareCall::CreateControllerOptions { environment: values[0] },
                PrepareCall::QueryControllerOptions { options: values[1] },
                PrepareCall::SetDefaultBackgroundColor {
                    options: values[2],
                    color: BackgroundColor {
                        red: color.0,
                        green: color.1,
                        blue: color.2,
                        alpha: if color.3 == 0 {
                            0
                        } else {
                            255
                        },
                    },
                },
                PrepareCall::SetIsInPrivateModeEnabled { options: values[1], enabled: incognito },
                PrepareCall::CreateCompositionController {
                    environment: values[0],
                    hwnd: controller_hwnd,
                    options: values[1],
                },
                PrepareCall::AwaitCompositionController,
                PrepareCall::QueryController { composition_controller: values[6] },
                PrepareCall::CreateDevice,
                PrepareCall::CreateTargetForHwnd {
                    device: values[8],
                    hwnd: controller_hwnd,
                    topmost: true,
                },
                PrepareCall::CreateVisual { device: values[8] },
                PrepareCall::SetRoot { target: values[9], visual: values[10] },
                PrepareCall::QueryUnknown { visual: values[10] },
                PrepareCall::SetRootVisualTarget {
                    composition_controller: values[6],
                    visual: values[12],
                },
                PrepareCall::Commit { device: values[8] },
            ]
            &&& run(begun, replies) matches Step::Done(Ok(prepared)) && {
                &&& prepared.controller_hwnd == controller_hwnd
                &&& prepared.controller == values[7]
                &&& prepared.state.controller == values[6]
                &&& prepared.state.device == values[8]
                &&& prepared.state.parking_target == values[9]
                &&& prepared.state.visual == values[10]
                &&& prepared.state.presentation_target is None
                &&& prepared.state.presentation_hwnd == 0
                &&& prepared.state.owner_thread == current_thread
            }
        }),
{
    law_creation_makes_its_calls(
        controller_hwnd,
        environment,
        incognito,
        Some(color),
        current_thread,
        values,
        replies,
    );
}

/// The controller that the completion handler was given is passed on as it is. Without
/// one, and where nobody takes it, the handler fails, each with a code of its own.
pub proof fn law_completion_passes_controller_on<T>(controller: T)
    ensures
        completion(Some(controller)) == Ok::<T, i32>(controller),
        completion(None::<T>) matches Err(code) && code == -2147467261,
        completion_answer(true) == Ok::<(), i32>(()),
        completion_answer(false) matches Err(code) && code == -2147418113,
{
}

} // verus!
