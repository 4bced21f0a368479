//! Composition controllers by raw pointer.
//!
//! A controller is published as a property of the window that owns it. Whoever
//! holds the pointer can keep the controller alive, resize it, show it, and send it
//! mouse input.

use crate::bounds;
use crate::bounds::Rect;
use crate::error;
use crate::step;
use crate::step::Step;
use crate::window;
use vstd::prelude::*;

verus! {

/// The name of the window property that holds the pointer of the controller.
pub const COMP_CONTROLLER_PROP_NAME: &'static str =
    "MyWallpaper.Wry.WebView2CompositionController";

/// A call on the property of a window that holds the pointer of its controller.
#[derive(Debug, Clone, Copy, PartialEq, Eq)]
pub enum PropertyCall {
    /// `GetPropW`, which gives the value of the property, or 0 if there is none.
    GetProp { hwnd: isize },
    /// `SetPropW`
    SetProp { hwnd: isize, value: isize },
    /// `RemovePropW`
    RemoveProp { hwnd: isize },
}

/// A lookup that waits for the value of the property of a window.
#[derive(Debug, Clone, Copy, PartialEq, Eq)]
pub struct ControllerPtrLookup {
    pub hwnd: isize,
}

impl ControllerPtrLookup {
    /// The call that is waited for.
    pub open spec fn pending_call(self) -> PropertyCall {
        PropertyCall::GetProp { hwnd: self.hwnd }
    }

    /// The call that is waited for.
    pub fn call(&self) -> (result: PropertyCall)
        ensures
            result == (PropertyCall::GetProp { hwnd: self.hwnd }),
            result == self.pending_call(),
    {
        PropertyCall::GetProp { hwnd: self.hwnd }
    }

    /// The pointer that a value of the property stands for.
    pub open spec fn answered(self, value: isize) -> isize {
        value
    }

    /// Goes on with the value of the property, which is the pointer.
    pub fn next(self, value: isize) -> (result: isize)
        ensures
            result == value,
            result == self.answered(value),
    {
        value
    }
}

/// How the pointer of the controller of a window is looked up.
pub open spec fn lookup_begun(controller_hwnd: isize) -> Step<ControllerPtrLookup, isize> {
    if window::invalid_handle(controller_hwnd) {
        Step::Done(0)
    } else {
        Step::Pending(ControllerPtrLookup { hwnd: controller_hwnd })
    }
}

/// Returns the raw COM pointer of the composition controller of a window: the value
/// of its property, or 0 without a call where there is no window.
pub fn get_composition_controller_ptr_for_hwnd_raw(controller_hwnd: isize) -> (result: Step<
    ControllerPtrLookup,
    isize,
>)
    ensures
        result == lookup_begun(controller_hwnd),
{
    if window::is_invalid(controller_hwnd) {
        return Step::Done(0);
    }
    Step::Pending(ControllerPtrLookup { hwnd: controller_hwnd })
}

/// How the pointer of a controller is published.
pub open spec fn store_begun(controller_ptr: isize, controller_hwnd: isize) -> Step<
    PropertyCall,
    (),
> {
    if controller_ptr == 0 || window::invalid_handle(controller_hwnd) {
        Step::Done(())
    } else {
        Step::Pending(PropertyCall::SetProp { hwnd: controller_hwnd, value: controller_ptr })
    }
}

/// Publishes the pointer of a controller as a property of its window. Whether the
/// property could be set is of no consequence.
pub fn store_composition_controller_ptr_for_hwnd_raw(
    controller_ptr: isize,
    controller_hwnd: isize,
) -> (result: Step<PropertyCall, ()>)
    ensures
        result == store_begun(controller_ptr, controller_hwnd),
{
    if controller_ptr == 0 || window::is_invalid(controller_hwnd) {
        return Step::Done(());
    }
    Step::Pending(PropertyCall::SetProp { hwnd: controller_hwnd, value: controller_ptr })
}

/// The end of a publication that waits for the present value of the property.
#[derive(Debug, Clone, Copy, PartialEq, Eq)]
pub struct ClearProperty {
    pub hwnd: isize,
    /// The pointer that the property is expected to hold.
    pub expected: isize,
}

impl ClearProperty {
    /// The call that is waited for.
    pub open spec fn pending_call(self) -> PropertyCall {
        PropertyCall::GetProp { hwnd: self.hwnd }
    }

    /// What the present value of the property leads to.
    pub open spec fn answered(self, current: isize) -> Step<PropertyCall, ()> {
        if current == self.expected {
            Step::Pending(PropertyCall::RemoveProp { hwnd: self.hwnd })
        } else {
            Step::Done(())
        }
    }

    /// The call that is waited for.
    pub fn call(&self) -> (result: PropertyCall)
        ensures
            result == (PropertyCall::GetProp { hwnd: self.hwnd }),
            result == self.pending_call(),
    {
        PropertyCall::GetProp { hwnd: self.hwnd }
    }

    /// Goes on with the present value of the property. It is removed only while it
    /// still matches the controller that goes away, so that a newer controller of the
    /// same window stays published.
    pub fn next(self, current: isize) -> (result: Step<PropertyCall, ()>)
        ensures
            result == self.answered(current),
    {
        if current == self.expected {
            Step::Pending(PropertyCall::RemoveProp { hwnd: self.hwnd })
        } else {
            Step::Done(())
        }
    }
}

/// How the publication of a controller is ended.
pub open spec fn clear_begun(controller_hwnd: isize, expected_ptr: isize) -> Step<
    ClearProperty,
    (),
> {
    if window::invalid_handle(controller_hwnd) || expected_ptr == 0 {
        Step::Done(())
    } else {
        Step::Pending(ClearProperty { hwnd: controller_hwnd, expected: expected_ptr })
    }
}

/// Ends the publication of the controller `expected_ptr` by its window.
pub fn clear_composition_controller_ptr_for_hwnd_raw(
    controller_hwnd: isize,
    expected_ptr: isize,
) -> (result: Step<ClearProperty, ()>)
    ensures
        result == clear_begun(controller_hwnd, expected_ptr),
{
    if window::is_invalid(controller_hwnd) || expected_ptr == 0 {
        return Step::Done(());
    }
    Step::Pending(ClearProperty { hwnd: controller_hwnd, expected: expected_ptr })
}

/// A change of the reference count of a COM object.
#[derive(Debug, Clone, Copy, PartialEq, Eq)]
pub enum ReferenceCall {
    /// `AddRef`
    AddRef { pointer: isize },
    /// `Release`
    Release { pointer: isize },
}

/// A pointer whose reference is about to be retained.
#[derive(Debug, Clone, Copy, PartialEq, Eq)]
pub struct Retain {
    pub pointer: isize,
}

impl Retain {
    /// The call that is waited for.
    pub open spec fn pending_call(self) -> ReferenceCall {
        ReferenceCall::AddRef { pointer: self.pointer }
    }

    /// The call that is waited for.
    pub fn call(&self) -> (result: ReferenceCall)
        ensures
            result == self.pending_call(),
    {
        ReferenceCall::AddRef { pointer: self.pointer }
    }

    /// What is handed out once the call was made.
    pub open spec fn retained(self) -> isize {
        self.pointer
    }

    /// Goes on once the call was made. The new reference is held by the same pointer.
    pub fn next(self) -> (result: Result<isize, String>)
        ensures
            result == Ok::<isize, String>(self.pointer),
            result == Ok::<isize, String>(self.retained()),
    {
        Ok(self.pointer)
    }
}

/// What is reported of a pointer that is null.
pub open spec fn null_controller() -> Seq<char> {
    "Null composition controller"@
}

/// How a reference on a controller is retained.
pub open spec fn retain_begun(comp_ptr: isize) -> Result<Retain, Seq<char>> {
    if comp_ptr == 0 {
        Err(null_controller())
    } else {
        Ok(Retain { pointer: comp_ptr })
    }
}

/// How a reference on a controller is released.
pub open spec fn release_begun(comp_ptr: isize) -> Step<ReferenceCall, ()> {
    if comp_ptr == 0 {
        Step::Done(())
    } else {
        Step::Pending(ReferenceCall::Release { pointer: comp_ptr })
    }
}

/// Retain one COM reference on a raw WebView2 composition-controller pointer.
pub fn retain_composition_controller_ptr_raw(comp_ptr: isize) -> (result: Result<Retain, String>)
    ensures
        step::reply_view(result) == retain_begun(comp_ptr),
{
    if comp_ptr == 0 {
        return Err("Null composition controller".to_owned());
    }
    Ok(Retain { pointer: comp_ptr })
}

/// Release a COM reference previously retained via
/// `retain_composition_controller_ptr_raw`.
pub fn release_composition_controller_ptr_raw(comp_ptr: isize) -> (result: Step<
    ReferenceCall,
    (),
>)
    ensures
        result == release_begun(comp_ptr),
{
    if comp_ptr == 0 {
        return Step::Done(());
    }
    Step::Pending(ReferenceCall::Release { pointer: comp_ptr })
}

/// `SendMouseInput` on a composition controller.
#[derive(Debug, Clone, Copy, PartialEq, Eq)]
pub struct MouseInput {
    pub comp_ptr: isize,
    pub event_kind: i32,
    pub virtual_keys: i32,
    pub mouse_data: u32,
    pub x: i32,
    pub y: i32,
}

impl MouseInput {
    /// What the reply to the call leads to.
    pub open spec fn answered(self, reply: Result<(), Seq<char>>) -> Result<(), Seq<char>> {
        match reply {
            Ok(_) => Ok(()),
            Err(message) => Err(error::labelled("SendMouseInput failed"@, message)),
        }
    }

    /// Goes on with the reply to the call.
    pub fn next(self, reply: Result<(), String>) -> (result: Result<(), String>)
        ensures
            step::reply_view(result) == match step::reply_view(reply) {
                Ok(_) => Ok(()),
                Err(message) => Err(error::labelled("SendMouseInput failed"@, message)),
            },
            step::reply_view(result) == self.answered(step::reply_view(reply)),
    {
        match reply {
            Ok(()) => Ok(()),
            Err(message) => Err(error::label("SendMouseInput failed", message.as_str())),
        }
    }
}

/// The mouse input event that is sent to a controller.
pub open spec fn mouse_input_begun(
    comp_ptr: isize,
    event_kind: i32,
    virtual_keys: i32,
    mouse_data: u32,
    x: i32,
    y: i32,
) -> Result<MouseInput, Seq<char>> {
    if comp_ptr == 0 {
        Err(null_controller())
    } else {
        Ok(MouseInput { comp_ptr, event_kind, virtual_keys, mouse_data, x, y })
    }
}

/// Send a mouse input event via the WebView2 composition controller.
///
/// `comp_ptr` is a raw pointer of a composition controller, which has to stay valid
/// until the call was made.
pub fn send_mouse_input_raw(
    comp_ptr: isize,
    event_kind: i32,
    virtual_keys: i32,
    mouse_data: u32,
    x: i32,
    y: i32,
) -> (result: Result<MouseInput, String>)
    ensures
        step::reply_view(result) == if comp_ptr == 0 {
            Err(null_controller())
        } else {
            Ok(MouseInput { comp_ptr, event_kind, virtual_keys, mouse_data, x, y })
        },
        step::reply_view(result) == mouse_input_begun(
            comp_ptr,
            event_kind,
            virtual_keys,
            mouse_data,
            x,
            y,
        ),
{
    if comp_ptr == 0 {
        return Err("Null composition controller".to_owned());
    }
    Ok(MouseInput { comp_ptr, event_kind, virtual_keys, mouse_data, x, y })
}

/// A call that resizes a controller and the window that holds it.
#[derive(Debug, Clone, Copy, PartialEq, Eq)]
pub enum RawBoundsCall {
    /// Query the `ICoreWebView2Controller` of a composition controller.
    QueryController { composition_controller: isize },
    /// `controller.ParentWindow(..)`
    ParentWindow { controller: isize },
    /// `SetWindowPos`, with `SWP_NOACTIVATE` if the window is not to be activated, and
    /// with `SWP_NOZORDER` if it is to keep its place in the Z order.
    SetWindowPos {
        container: isize,
        x: i32,
        y: i32,
        width: i32,
        height: i32,
        no_activate: bool,
        keep_z_order: bool,
    },
    /// `controller.SetBounds(bounds)`
    SetBounds { controller: isize, bounds: Rect },
    /// `controller.NotifyParentWindowPositionChanged()`
    NotifyParentWindowPositionChanged { controller: isize },
}

/// The call that a resize waits for.
#[derive(Debug, Clone, Copy, PartialEq, Eq)]
pub enum RawBoundsPhase {
    Query,
    ParentWindow { controller: isize },
    MoveWindow { controller: isize, container: isize },
    SetBounds { controller: isize },
    Notify { controller: isize },
}

/// A resize by raw pointer that has begun.
#[derive(Debug, Clone, Copy, PartialEq, Eq)]
pub struct RawBoundsUpdate {
    pub comp_ptr: isize,
    pub width: i32,
    pub height: i32,
    /// The call that the resize waits for.
    pub phase: RawBoundsPhase,
}

impl RawBoundsUpdate {
    /// The resize waiting for another call.
    pub open spec fn at(self, phase: RawBoundsPhase) -> RawBoundsUpdate {
        RawBoundsUpdate { phase, ..self }
    }

    /// The call that the resize waits for.
    pub open spec fn pending_call(self) -> RawBoundsCall {
        match self.phase {
            RawBoundsPhase::Query => RawBoundsCall::QueryController {
                composition_controller: self.comp_ptr,
            },
            RawBoundsPhase::ParentWindow { controller } => RawBoundsCall::ParentWindow {
                controller,
            },
            RawBoundsPhase::MoveWindow { container, .. } => RawBoundsCall::SetWindowPos {
                container,
                x: 0,
                y: 0,
                width: self.width,
                height: self.height,
                no_activate: true,
                keep_z_order: true,
            },
            RawBoundsPhase::SetBounds { controller } => RawBoundsCall::SetBounds {
                controller,
                bounds: bounds::surface(self.width, self.height),
            },
            RawBoundsPhase::Notify { controller } =>
                RawBoundsCall::NotifyParentWindowPositionChanged { controller },
        }
    }

    /// What the reply to the call leads to. The window is resized on a best-effort
    /// basis, and so is the notification: what is replied to them is of no
    /// consequence.
    pub open spec fn answered(self, reply: Result<isize, Seq<char>>) -> Step<
        RawBoundsUpdate,
        Result<(), Seq<char>>,
    > {
        match (self.phase, reply) {
            (RawBoundsPhase::Query, Ok(controller)) => Step::Pending(
                self.at(RawBoundsPhase::ParentWindow { controller }),
            ),
            (RawBoundsPhase::Query, Err(message)) => Step::Done(
                Err(error::labelled("QI for ICoreWebView2Controller failed"@, message)),
            ),
            (RawBoundsPhase::ParentWindow { controller }, Ok(container)) => Step::Pending(
                self.at(
                    if window::invalid_handle(container) {
                        RawBoundsPhase::SetBounds { controller }
                    } else {
                        RawBoundsPhase::MoveWindow { controller, container }
                    },
                ),
            ),
            (RawBoundsPhase::ParentWindow { controller }, Err(_)) => Step::Pending(
                self.at(RawBoundsPhase::SetBounds { controller }),
            ),
            (RawBoundsPhase::MoveWindow { controller, .. }, _) => Step::Pending(
                self.at(RawBoundsPhase::SetBounds { controller }),
            ),
            (RawBoundsPhase::SetBounds { controller }, Ok(_)) => Step::Pending(
                self.at(RawBoundsPhase::Notify { controller }),
            ),
            (RawBoundsPhase::SetBounds { .. }, Err(message)) => Step::Done(
                Err(error::labelled("SetBounds failed"@, message)),
            ),
            (RawBoundsPhase::Notify { .. }, _) => Step::Done(Ok(())),
        }
    }

    /// The call that the resize waits for.
    pub fn call(&self) -> (result: RawBoundsCall)
        ensures
            result == self.pending_call(),
    {
        match self.phase {
            RawBoundsPhase::Query => RawBoundsCall::QueryController {
                composition_controller: self.comp_ptr,
            },
            RawBoundsPhase::ParentWindow { controller } => RawBoundsCall::ParentWindow {
                controller,
            },
            RawBoundsPhase::MoveWindow { container, .. } => RawBoundsCall::SetWindowPos {
                container,
                x: 0,
                y: 0,
                width: self.width,
                height: self.height,
                no_activate: true,
                keep_z_order: true,
            },
            RawBoundsPhase::SetBounds { controller } => RawBoundsCall::SetBounds {
                controller,
                bounds: Rect { left: 0, top: 0, right: self.width, bottom: self.height },
            },
            RawBoundsPhase::Notify { controller } =>
                RawBoundsCall::NotifyParentWindowPositionChanged { controller },
        }
    }

    /// Goes on with the reply to the call that the resize waits for. The value of a
    /// query is the handle of the controller, that of `ParentWindow` is the handle of
    /// the window; the other calls give no value of interest.
    pub fn next(self, reply: Result<isize, String>) -> (result: Step<
        RawBoundsUpdate,
        Result<(), String>,
    >)
        ensures
            match result {
                Step::Pending(next) => self.answered(step::reply_view(reply))
                    == Step::<RawBoundsUpdate, Result<(), Seq<char>>>::Pending(next),
                Step::Done(done) => self.answered(step::reply_view(reply))
                    == Step::<RawBoundsUpdate, Result<(), Seq<char>>>::Done(
                    step::reply_view(done),
                ),
            },
    {
        let phase: RawBoundsPhase = match (self.phase, reply) {
            (RawBoundsPhase::Query, Ok(controller)) => RawBoundsPhase::ParentWindow { controller },
            (RawBoundsPhase::Query, Err(message)) => {
                return Step::Done(
                    Err(
                        error::label("QI for ICoreWebView2Controller failed", message.as_str()),
                    ),
                );
            },
            (RawBoundsPhase::ParentWindow { controller }, Ok(container)) => {
                if window::is_invalid(container) {
                    RawBoundsPhase::SetBounds { controller }
                } else {
                    RawBoundsPhase::MoveWindow { controller, container }
                }
            },
            (RawBoundsPhase::ParentWindow { controller }, Err(_)) => RawBoundsPhase::SetBounds {
                controller,
            },
            (RawBoundsPhase::MoveWindow { controller, .. }, _) => RawBoundsPhase::SetBounds {
                controller,
            },
            (RawBoundsPhase::SetBounds { controller }, Ok(_)) => RawBoundsPhase::Notify {
                controller,
            },
            (RawBoundsPhase::SetBounds { .. }, Err(message)) => {
                return Step::Done(Err(error::label("SetBounds failed", message.as_str())));
            },
            (RawBoundsPhase::Notify { .. }, _) => {
                return Step::Done(Ok(()));
            },
        };
        Step::Pending(RawBoundsUpdate { phase, ..self })
    }
}

/// How a resize by raw pointer begins.
pub open spec fn raw_resize_begun(comp_ptr: isize, width: i32, height: i32) -> Result<
    RawBoundsUpdate,
    Seq<char>,
> {
    if comp_ptr == 0 {
        Err(null_controller())
    } else {
        Ok(RawBoundsUpdate { comp_ptr, width, height, phase: RawBoundsPhase::Query })
    }
}

/// Set the WebView2 controller bounds directly via a raw composition controller
/// pointer.
pub fn set_controller_bounds_raw(comp_ptr: isize, width: i32, height: i32) -> (result: Result<
    RawBoundsUpdate,
    String,
>)
    ensures
        step::reply_view(result) == if comp_ptr == 0 {
            Err(null_controller())
        } else {
            Ok(RawBoundsUpdate { comp_ptr, width, height, phase: RawBoundsPhase::Query })
        },
        step::reply_view(result) == raw_resize_begun(comp_ptr, width, height),
{
    if comp_ptr == 0 {
        return Err("Null composition controller".to_owned());
    }
    Ok(RawBoundsUpdate { comp_ptr, width, height, phase: RawBoundsPhase::Query })
}

/// A call that shows a controller.
#[derive(Debug, Clone, Copy, PartialEq, Eq)]
pub enum VisibilityCall {
    /// Query the `ICoreWebView2Controller` of a composition controller.
    QueryController { composition_controller: isize },
    /// `controller.SetIsVisible(visible)`
    SetIsVisible { controller: isize, visible: bool },
}

/// Showing a controller, once it has begun. The handle of the controller is there as
/// soon as it was queried.
#[derive(Debug, Clone, Copy, PartialEq, Eq)]
pub struct VisibilityUpdate {
    pub comp_ptr: isize,
    pub controller: Option<isize>,
}

impl VisibilityUpdate {
    /// The call that is waited for.
    pub open spec fn pending_call(self) -> VisibilityCall {
        match self.controller {
            None => VisibilityCall::QueryController { composition_controller: self.comp_ptr },
            Some(controller) => VisibilityCall::SetIsVisible { controller, visible: true },
        }
    }

    /// What the reply to the call leads to.
    pub open spec fn answered(self, reply: Result<isize, Seq<char>>) -> Step<
        VisibilityUpdate,
        Result<(), Seq<char>>,
    > {
        match (self.controller, reply) {
            (None, Ok(controller)) => Step::Pending(
                VisibilityUpdate { controller: Some(controller), ..self },
            ),
            (None, Err(message)) => Step::Done(
                Err(error::labelled("QI for ICoreWebView2Controller failed"@, message)),
            ),
            (Some(_), Ok(_)) => Step::Done(Ok(())),
            (Some(_), Err(message)) => Step::Done(
                Err(error::labelled("SetIsVisible failed"@, message)),
            ),
        }
    }

    /// The call that is waited for.
    pub fn call(&self) -> (result: VisibilityCall)
        ensures
            result == self.pending_call(),
    {
        match self.controller {
            None => VisibilityCall::QueryController { composition_controller: self.comp_ptr },
            Some(controller) => VisibilityCall::SetIsVisible { controller, visible: true },
        }
    }

    /// Goes on with the reply to the call. The value of a query is the handle of the
    /// controller.
    pub fn next(self, reply: Result<isize, String>) -> (result: Step<
        VisibilityUpdate,
        Result<(), String>,
    >)
        ensures
            match result {
                Step::Pending(next) => self.answered(step::reply_view(reply))
                    == Step::<VisibilityUpdate, Result<(), Seq<char>>>::Pending(next),
                Step::Done(done) => self.answered(step::reply_view(reply))
                    == Step::<VisibilityUpdate, Result<(), Seq<char>>>::Done(
                    step::reply_view(done),
                ),
            },
    {
        match (self.controller, reply) {
            (None, Ok(controller)) => Step::Pending(
                VisibilityUpdate { controller: Some(controller), ..self },
            ),
            (None, Err(message)) => Step::Done(
                Err(error::label("QI for ICoreWebView2Controller failed", message.as_str())),
            ),
            (Some(_), Ok(_)) => Step::Done(Ok(())),
            (Some(_), Err(message)) => Step::Done(
                Err(error::label("SetIsVisible failed", message.as_str())),
            ),
        }
    }
}

/// How showing a controller begins.
pub open spec fn showing_begun(comp_ptr: isize) -> Result<VisibilityUpdate, Seq<char>> {
    if comp_ptr == 0 {
        Err(null_controller())
    } else {
        Ok(VisibilityUpdate { comp_ptr, controller: None })
    }
}

/// Re-assert WebView2 visibility via the composition controller.
pub fn set_is_visible_raw(comp_ptr: isize) -> (result: Result<VisibilityUpdate, String>)
    ensures
        step::reply_view(result) == if comp_ptr == 0 {
            Err(null_controller())
        } else {
            Ok(VisibilityUpdate { comp_ptr, controller: None })
        },
        step::reply_view(result) == showing_begun(comp_ptr),
{
    if comp_ptr == 0 {
        return Err("Null composition controller".to_owned());
    }
    Ok(VisibilityUpdate { comp_ptr, controller: None })
}

/// The properties of all windows after a call on them, where a window without the
/// property is not in the map.
pub open spec fn properties_after(
    properties: Map<isize, isize>,
    call: PropertyCall,
) -> Map<isize, isize> {
    match call {
        PropertyCall::GetProp { .. } => properties,
        PropertyCall::SetProp { hwnd, value } => properties.insert(hwnd, value),
        PropertyCall::RemoveProp { hwnd } => properties.remove(hwnd),
    }
}

/// The value of the property of a window, or 0 if it has none.
pub open spec fn property_of(properties: Map<isize, isize>, hwnd: isize) -> isize {
    if properties.contains_key(hwnd) {
        properties[hwnd]
    } else {
        0
    }
}

/// The value that a call on a property gives: that of the property it reads.
pub open spec fn property_read(properties: Map<isize, isize>, call: PropertyCall) -> isize {
    match call {
        PropertyCall::GetProp { hwnd } => property_of(properties, hwnd),
        _ => 0,
    }
}

/// What a lookup gives: the value that its own call reads.
pub open spec fn found(properties: Map<isize, isize>, controller_hwnd: isize) -> isize {
    match lookup_begun(controller_hwnd) {
        Step::Done(pointer) => pointer,
        Step::Pending(lookup) => lookup.answered(
            property_read(properties, lookup.pending_call()),
        ),
    }
}

/// The properties after a controller was published.
pub open spec fn stored(
    properties: Map<isize, isize>,
    controller_ptr: isize,
    controller_hwnd: isize,
) -> Map<isize, isize> {
    match store_begun(controller_ptr, controller_hwnd) {
        Step::Done(_) => properties,
        Step::Pending(call) => properties_after(properties, call),
    }
}

/// The properties after the publication of a controller was ended.
pub open spec fn cleared(
    properties: Map<isize, isize>,
    controller_hwnd: isize,
    expected_ptr: isize,
) -> Map<isize, isize> {
    match clear_begun(controller_hwnd, expected_ptr) {
        Step::Done(_) => properties,
        Step::Pending(clear) => match clear.answered(
            property_read(properties, clear.pending_call()),
        ) {
            Step::Done(_) => properties,
            Step::Pending(call) => properties_after(properties, call),
        },
    }
}

/// A controller that was published is found by its window, and the other windows
/// keep theirs. Without a pointer or a window nothing is published.
pub proof fn law_published_controller_is_found(
    properties: Map<isize, isize>,
    controller_ptr: isize,
    controller_hwnd: isize,
    other: isize,
)
    ensures
        controller_ptr != 0 && controller_hwnd != 0 ==> found(
            stored(properties, controller_ptr, controller_hwnd),
            controller_hwnd,
        ) == controller_ptr,
        controller_ptr == 0 || controller_hwnd == 0 ==> stored(
            properties,
            controller_ptr,
            controller_hwnd,
        ) == properties,
        other != controller_hwnd ==> found(
            stored(properties, controller_ptr, controller_hwnd),
            other,
        ) == found(properties, other),
{
}

/// Ending the publication of a controller removes it where it is still published,
/// and never touches a newer controller of the same window, nor another window.
pub proof fn law_clear_spares_newer_controller(
    properties: Map<isize, isize>,
    controller_hwnd: isize,
    expected_ptr: isize,
    other: isize,
)
    ensures
        found(properties, controller_hwnd) != expected_ptr ==> cleared(
            properties,
            controller_hwnd,
            expected_ptr,
        ) == properties,
        found(properties, controller_hwnd) == expected_ptr ==> found(
            cleared(properties, controller_hwnd, expected_ptr),
            controller_hwnd,
        ) == 0,
        other != controller_hwnd ==> found(
            cleared(properties, controller_hwnd, expected_ptr),
            other,
        ) == found(properties, other),
{
}

/// The reference count of the object at `pointer` after a call.
pub open spec fn references_after(count: int, pointer: isize, call: ReferenceCall) -> int {
    match call {
        ReferenceCall::AddRef { pointer: retained } => if retained == pointer {
            count + 1
        } else {
            count
        },
        ReferenceCall::Release { pointer: released } => if released == pointer {
            count - 1
        } else {
            count
        },
    }
}

/// Retaining a pointer and releasing it balances the references of every object.
/// A null pointer is neither retained nor released.
pub proof fn law_release_balances_retain(comp_ptr: isize, pointer: isize, count: int)
    ensures
        match (retain_begun(comp_ptr), release_begun(comp_ptr)) {
            (Ok(retain), Step::Pending(release)) => {
                &&& comp_ptr != 0
                &&& references_after(count, comp_ptr, retain.pending_call()) == count + 1
                &&& references_after(
                    references_after(count, pointer, retain.pending_call()),
                    pointer,
                    release,
                ) == count
            },
            (Err(_), Step::Done(_)) => comp_ptr == 0,
            _ => false,
        },
{
}

/// Where a resize by raw pointer stands after `replies`.
pub open spec fn run(update: RawBoundsUpdate, replies: Seq<Result<isize, Seq<char>>>) -> Step<
    RawBoundsUpdate,
    Result<(), Seq<char>>,
>
    decreases replies.len(),
{
    if replies.len() == 0 {
        Step::Pending(update)
    } else {
        match update.answered(replies[0]) {
            Step::Pending(next) => run(next, replies.skip(1)),
            Step::Done(result) => Step::Done(result),
        }
    }
}

/// The calls that were made for `replies` to come.
pub open spec fn calls_made(
    update: RawBoundsUpdate,
    replies: Seq<Result<isize, Seq<char>>>,
) -> Seq<RawBoundsCall>
    decreases replies.len(),
{
    if replies.len() == 0 {
        Seq::empty()
    } else {
        match update.answered(replies[0]) {
            Step::Pending(next) => seq![update.pending_call()] + calls_made(next, replies.skip(1)),
            Step::Done(_) => seq![update.pending_call()],
        }
    }
}

/// A resize by raw pointer is over after at most five calls. It succeeds exactly if
/// the controller can be queried and takes the bounds; the window that holds it is
/// resized along where there is one, and whether that works is of no consequence.
pub proof fn law_raw_resize_depends_on_controller_alone(
    update: RawBoundsUpdate,
    replies: Seq<Result<isize, Seq<char>>>,
)
    requires
        update.phase == RawBoundsPhase::Query,
        replies.len() >= 5,
    ensures
        ({
            let held = replies[1] matches Ok(container) && container != 0;
            let bounds_reply = if held {
                replies[3]
            } else {
                replies[2]
            };
            let controller = replies[0]->Ok_0;
            let container = replies[1]->Ok_0;
            let move_window = if held {
                seq![
                    RawBoundsCall::SetWindowPos {
                        container,
                        x: 0,
                        y: 0,
                        width: update.width,
                        height: update.height,
                        no_activate: true,
                        keep_z_order: true,
                    },
                ]
            } else {
                Seq::empty()
            };
            &&& run(update, replies) is Done
            &&& run(update, replies) == Step::<RawBoundsUpdate, _>::Done(Ok::<(), Seq<char>>(()))
                <==> replies[0] is Ok && bounds_reply is Ok
            &&& run(update, replies) == Step::<RawBoundsUpdate, _>::Done(Ok::<(), Seq<char>>(()))
                ==> calls_made(update, replies) == seq![
                RawBoundsCall::QueryController { composition_controller: update.comp_ptr },
                RawBoundsCall::ParentWindow { controller },
            ] + move_window + seq![
                RawBoundsCall::SetBounds {
                    controller,
                    bounds: bounds::surface(update.width, update.height),
                },
                RawBoundsCall::NotifyParentWindowPositionChanged { controller },
            ]
        }),
{
    reveal_with_fuel(run, 6);
    reveal_with_fuel(calls_made, 6);
}

/// Where showing a controller stands after `replies`.
pub open spec fn shown(
    update: VisibilityUpdate,
    replies: Seq<Result<isize, Seq<char>>>,
) -> Step<VisibilityUpdate, Result<(), Seq<char>>>
    decreases replies.len(),
{
    if replies.len() == 0 {
        Step::Pending(update)
    } else {
        match update.answered(replies[0]) {
            Step::Pending(next) => shown(next, replies.skip(1)),
            Step::Done(result) => Step::Done(result),
        }
    }
}

/// The calls that were made to show a controller, for `replies` to come.
pub open spec fn showing_calls(
    update: VisibilityUpdate,
    replies: Seq<Result<isize, Seq<char>>>,
) -> Seq<VisibilityCall>
    decreases replies.len(),
{
    if replies.len() == 0 {
        Seq::empty()
    } else {
        match update.answered(replies[0]) {
            Step::Pending(next) => seq![update.pending_call()] + showing_calls(
                next,
                replies.skip(1),
            ),
            Step::Done(_) => seq![update.pending_call()],
        }
    }
}

/// Showing a controller succeeds exactly if the controller can be queried and takes
/// `SetIsVisible(true)`. It is over with the first of the two calls that fails, and
/// with the second in any case.
pub proof fn law_controller_is_shown_by_two_calls(
    update: VisibilityUpdate,
    replies: Seq<Result<isize, Seq<char>>>,
)
    requires
        update.controller is None,
    ensures
        shown(update, replies) == Step::<VisibilityUpdate, _>::Done(Ok::<(), Seq<char>>(())) <==> {
            &&& replies.len() >= 2
            &&& replies[0] is Ok
            &&& replies[1] is Ok
        },
        replies.len() >= 2 ==> shown(update, replies) is Done,
        replies.len() >= 1 && replies[0] is Err ==> shown(update, replies) == Step::<
            VisibilityUpdate,
            _,
        >::Done(
            Err::<(), _>(
                error::labelled("QI for ICoreWebView2Controller failed"@, replies[0]->Err_0),
            ),
        ),
        replies.len() >= 2 && replies[0] is Ok && replies[1] is Err ==> shown(update, replies)
            == Step::<VisibilityUpdate, _>::Done(
            Err::<(), _>(error::labelled("SetIsVisible failed"@, replies[1]->Err_0)),
        ),
        ({
            let query = VisibilityCall::QueryController {
                composition_controller: update.comp_ptr,
            };
            let show = VisibilityCall::SetIsVisible {
                controller: replies[0]->Ok_0,
                visible: true,
            };
            replies.len() >= 2 ==> showing_calls(update, replies) == if replies[0] is Ok {
                seq![query, show]
            } else {
                seq![query]
            }
        }),
{
    reveal_with_fuel(shown, 3);
    reveal_with_fuel(showing_calls, 3);
}

/// A lookup for a window reads the property of that very window, and finds its value;
/// a window without the property has the value 0. No window is asked about with a null
/// handle.
pub proof fn law_lookup_reads_its_own_window(
    properties: Map<isize, isize>,
    controller_hwnd: isize,
    other: isize,
    value: isize,
)
    ensures
        controller_hwnd != 0 ==> (lookup_begun(controller_hwnd) matches Step::Pending(lookup)
            && lookup.pending_call() == (PropertyCall::GetProp { hwnd: controller_hwnd })),
        controller_hwnd != 0 && properties.contains_key(controller_hwnd) ==> found(
            properties,
            controller_hwnd,
        ) == properties[controller_hwnd],
        controller_hwnd != 0 && !properties.contains_key(controller_hwnd) ==> found(
            properties,
            controller_hwnd,
        ) == 0,
        controller_hwnd == 0 ==> lookup_begun(controller_hwnd) == Step::<
            ControllerPtrLookup,
            isize,
        >::Done(0),
        // The properties of other windows are of no consequence.
        other != controller_hwnd ==> found(properties.insert(other, value), controller_hwnd)
            == found(properties, controller_hwnd),
{
}

/// Publishing sets the property of that very window to that very pointer, and changes
/// nothing else. Without a pointer or a window nothing is set.
pub proof fn law_publication_sets_one_property(
    properties: Map<isize, isize>,
    controller_ptr: isize,
    controller_hwnd: isize,
)
    ensures
        controller_ptr != 0 && controller_hwnd != 0 ==> {
            &&& store_begun(controller_ptr, controller_hwnd) == Step::<PropertyCall, ()>::Pending(
                (PropertyCall::SetProp { hwnd: controller_hwnd, value: controller_ptr }),
            )
            &&& stored(properties, controller_ptr, controller_hwnd) == properties.insert(
                controller_hwnd,
                controller_ptr,
            )
        },
        controller_ptr == 0 || controller_hwnd == 0 ==> {
            &&& store_begun(controller_ptr, controller_hwnd) == Step::<PropertyCall, ()>::Done(())
            &&& stored(properties, controller_ptr, controller_hwnd) == properties
        },
{
}

/// Ending a publication reads the property of that very window, and removes it exactly
/// if it holds that very pointer. Nothing else is changed.
pub proof fn law_clear_removes_the_expected_pointer(
    properties: Map<isize, isize>,
    controller_hwnd: isize,
    expected_ptr: isize,
    current: isize,
)
    ensures
        controller_hwnd != 0 && expected_ptr != 0 ==> (clear_begun(controller_hwnd, expected_ptr)
            matches Step::Pending(clear) && {
            &&& clear.pending_call() == (PropertyCall::GetProp { hwnd: controller_hwnd })
            &&& current == expected_ptr ==> clear.answered(current) == Step::<
                PropertyCall,
                (),
            >::Pending((PropertyCall::RemoveProp { hwnd: controller_hwnd }))
            &&& current != expected_ptr ==> clear.answered(current) == Step::<
                PropertyCall,
                (),
            >::Done(())
        }),
        controller_hwnd == 0 || expected_ptr == 0 ==> clear_begun(controller_hwnd, expected_ptr)
            == Step::<ClearProperty, ()>::Done(()),
        cleared(properties, controller_hwnd, expected_ptr) == if controller_hwnd != 0
            && expected_ptr != 0 && properties.contains_key(controller_hwnd)
            && properties[controller_hwnd] == expected_ptr {
            properties.remove(controller_hwnd)
        } else {
            properties
        },
{
}

/// Retaining and releasing name the very pointer that they are called with. A null
/// pointer is refused by the one, and let be by the other.
pub proof fn law_references_name_their_pointer(comp_ptr: isize)
    ensures
        comp_ptr != 0 ==> {
            &&& retain_begun(comp_ptr) matches Ok(retain) && {
                &&& retain.pointer == comp_ptr
                &&& retain.retained() == comp_ptr
                &&& retain.pending_call() == (ReferenceCall::AddRef { pointer: comp_ptr })
            }
            &&& release_begun(comp_ptr) == Step::<ReferenceCall, ()>::Pending(
                (ReferenceCall::Release { pointer: comp_ptr }),
            )
        },
        retain_begun(0) == Err::<Retain, _>("Null composition controller"@),
        release_begun(0) == Step::<ReferenceCall, ()>::Done(()),
{
}

/// A mouse event is sent to the very controller with the very values that were given,
/// and only a null pointer is refused. A failure of the call is reported as such.
pub proof fn law_mouse_input_is_sent_as_given(
    comp_ptr: isize,
    event_kind: i32,
    virtual_keys: i32,
    mouse_data: u32,
    x: i32,
    y: i32,
    message: Seq<char>,
)
    ensures
        comp_ptr != 0 ==> (mouse_input_begun(
            comp_ptr,
            event_kind,
            virtual_keys,
            mouse_data,
            x,
            y,
        ) matches Ok(input) && {
            &&& input.comp_ptr == comp_ptr
            &&& input.event_kind == event_kind
            &&& input.virtual_keys == virtual_keys
            &&& input.mouse_data == mouse_data
            &&& input.x == x
            &&& input.y == y
            &&& input.answered(Ok(())) == Ok::<(), Seq<char>>(())
            &&& input.answered(Err(message)) == Err::<(), _>(
                "SendMouseInput failed"@ + ": "@ + message,
            )
        }),
        mouse_input_begun(0, event_kind, virtual_keys, mouse_data, x, y) == Err::<MouseInput, _>(
            "Null composition controller"@,
        ),
{
}

/// A resize by raw pointer, from the size that was asked for to its end. The controller
/// at the pointer is queried. Its window, where it has one, is moved to the origin and
/// given the size, without being activated or raised. The surface is given the size,
/// and the controller is told. Only a failed query or a failed `SetBounds` is reported.
pub proof fn law_raw_resize_sets_the_size_asked_for(
    comp_ptr: isize,
    width: i32,
    height: i32,
    replies: Seq<Result<isize, Seq<char>>>,
)
    requires
        comp_ptr != 0,
        replies.len() >= 5,
    ensures
        raw_resize_begun(comp_ptr, width, height) matches Ok(begun) && {
            let controller = replies[0]->Ok_0;
            let container = replies[1]->Ok_0;
            let held = replies[1] is Ok && container != 0;
            let query = seq![
                RawBoundsCall::QueryController { composition_controller: comp_ptr },
            ];
            let parent = seq![RawBoundsCall::ParentWindow { controller }];
            let window = if held {
                seq![
                    RawBoundsCall::SetWindowPos {
                        container,
                        x: 0,
                        y: 0,
                        width,
                        height,
                        no_activate: true,
                        keep_z_order: true,
                    },
                ]
            } else {
                Seq::empty()
            };
            let surface = seq![
                RawBoundsCall::SetBounds {
                    controller,
                    bounds: Rect { left: 0, top: 0, right: width, bottom: height },
                },
            ];
            let notification = seq![
                RawBoundsCall::NotifyParentWindowPositionChanged { controller },
            ];
            let surface_reply = if held {
                replies[3]
            } else {
                replies[2]
            };
            match (replies[0], surface_reply) {
                (Err(message), _) => {
                    &&& run(begun, replies) == Step::<RawBoundsUpdate, _>::Done(
                        Err::<(), _>(
                            "QI for ICoreWebView2Controller failed"@ + ": "@ + message,
                        ),
                    )
                    &&& calls_made(begun, replies) == query
                },
                (Ok(_), Err(message)) => {
                    &&& run(begun, replies) == Step::<RawBoundsUpdate, _>::Done(
                        Err::<(), _>("SetBounds failed"@ + ": "@ + message),
                    )
                    &&& calls_made(begun, replies) == query + parent + window + surface
                },
                (Ok(_), Ok(_)) => {
                    &&& run(begun, replies) == Step::<RawBoundsUpdate, _>::Done(
                        Ok::<(), Seq<char>>(()),
                    )
                    &&& calls_made(begun, replies) == query + parent + window + surface
                        + notification
                },
            }
        },
{
    reveal_with_fuel(run, 6);
    reveal_with_fuel(calls_made, 6);
}

/// Showing the controller at a pointer, from its beginning to its end: that controller
/// is queried, and what the query gave is made visible. A null pointer is refused, by
/// this and by a resize.
pub proof fn law_controller_at_pointer_is_shown(
    comp_ptr: isize,
    width: i32,
    height: i32,
    controller: isize,
    value: isize,
    message: Seq<char>,
)
    ensures
        comp_ptr != 0 ==> (showing_begun(comp_ptr) matches Ok(begun) && {
            let query = VisibilityCall::QueryController { composition_controller: comp_ptr };
            let show = VisibilityCall::SetIsVisible { controller, visible: true };
            let success = seq![Ok::<isize, Seq<char>>(controller), Ok(value)];
            let unshown = seq![Ok::<isize, Seq<char>>(controller), Err(message)];
            let unqueried = seq![Err::<isize, Seq<char>>(message)];
            &&& showing_calls(begun, success) == seq![query, show]
            &&& shown(begun, success) == Step::<VisibilityUpdate, _>::Done(Ok::<(), Seq<char>>(()))
            &&& showing_calls(begun, unshown) == seq![query, show]
            &&& shown(begun, unshown) == Step::<VisibilityUpdate, _>::Done(
                Err::<(), _>("SetIsVisible failed"@ + ": "@ + message),
            )
            &&& showing_calls(begun, unqueried) == seq![query]
            &&& shown(begun, unqueried) == Step::<VisibilityUpdate, _>::Done(
                Err::<(), _>("QI for ICoreWebView2Controller failed"@ + ": "@ + message),
            )
        }),
        showing_begun(0) == Err::<VisibilityUpdate, _>("Null composition controller"@),
        raw_resize_begun(0, width, height) == Err::<RawBoundsUpdate, _>(
            "Null composition controller"@,
        ),
{
    reveal_with_fuel(shown, 3);
    reveal_with_fuel(showing_calls, 3);
}

} // verus!
