//! Errors of the desktop-composition host.

use crate::text;
use vstd::prelude::*;

verus! {

/// Errors returned by the desktop-composition host.
///
/// The host is addressed by window handles rather than by COM interfaces. The
/// composition controller and the DirectComposition graph stay on the UI thread
/// that owns the WebView, so a caller can neither unbalance COM references nor
/// cross threads.
#[derive(Debug, Clone, PartialEq, Eq)]
pub enum DesktopCompositionError {
    /// No composition controller belongs to the supplied WebView window.
    ControllerUnavailable,
    /// The operation was attempted from a thread other than the WebView owner.
    WrongThread { owner: u32, current: u32 },
    /// The supplied presentation handle does not identify a live window.
    InvalidPresentationWindow,
    /// The startup registry was poisoned before the WebView was constructed.
    RegistryUnavailable,
    /// A live composition controller is already registered for this window.
    ControllerAlreadyRegistered,
    /// A WebView2 or DirectComposition transition failed.
    OperationFailed(String),
}

/// What a `DesktopCompositionError` stands for, with its message as a sequence of
/// characters.
pub enum ErrorView {
    ControllerUnavailable,
    WrongThread { owner: u32, current: u32 },
    InvalidPresentationWindow,
    RegistryUnavailable,
    ControllerAlreadyRegistered,
    OperationFailed(Seq<char>),
}

impl View for DesktopCompositionError {
    type V = ErrorView;

    open spec fn view(&self) -> ErrorView {
        match self {
            DesktopCompositionError::ControllerUnavailable => ErrorView::ControllerUnavailable,
            DesktopCompositionError::WrongThread { owner, current } => ErrorView::WrongThread {
                owner: *owner,
                current: *current,
            },
            DesktopCompositionError::InvalidPresentationWindow =>
                ErrorView::InvalidPresentationWindow,
            DesktopCompositionError::RegistryUnavailable => ErrorView::RegistryUnavailable,
            DesktopCompositionError::ControllerAlreadyRegistered =>
                ErrorView::ControllerAlreadyRegistered,
            DesktopCompositionError::OperationFailed(message) => ErrorView::OperationFailed(
                message@,
            ),
        }
    }
}

impl ErrorView {
    /// The message that is shown for the error.
    pub open spec fn message(self) -> Seq<char> {
        match self {
            ErrorView::ControllerUnavailable =>
                "WebView2 composition controller is unavailable"@,
            ErrorView::WrongThread { owner, current } =>
                "WebView2 composition controller belongs to UI thread "@ + text::decimal(
                    owner as nat,
                ) + ", not thread "@ + text::decimal(current as nat),
            ErrorView::InvalidPresentationWindow => "composition presentation HWND is invalid"@,
            ErrorView::RegistryUnavailable =>
                "desktop-composition startup registry is unavailable"@,
            ErrorView::ControllerAlreadyRegistered =>
                "a desktop-composition controller is already registered for this HWND"@,
            ErrorView::OperationFailed(message) => message,
        }
    }
}

impl DesktopCompositionError {
    /// The message that is shown for the error.
    pub fn to_string(&self) -> (result: String)
        ensures
            result@ == self@.message(),
    {
        match self {
            DesktopCompositionError::ControllerUnavailable =>
                "WebView2 composition controller is unavailable".to_owned(),
            DesktopCompositionError::WrongThread { owner, current } =>
                "WebView2 composition controller belongs to UI thread ".to_owned().concat(
                text::decimal_text(*owner).as_str(),
            ).concat(", not thread ").concat(text::decimal_text(*current).as_str()),
            DesktopCompositionError::InvalidPresentationWindow =>
                "composition presentation HWND is invalid".to_owned(),
            DesktopCompositionError::RegistryUnavailable =>
                "desktop-composition startup registry is unavailable".to_owned(),
            DesktopCompositionError::ControllerAlreadyRegistered =>
                "a desktop-composition controller is already registered for this HWND".to_owned(),
            DesktopCompositionError::OperationFailed(message) => message.clone(),
        }
    }
}

/// A result with what its error stands for.
pub open spec fn outcome<T>(result: Result<T, DesktopCompositionError>) -> Result<T, ErrorView> {
    match result {
        Ok(value) => Ok(value),
        Err(error) => Err(error@),
    }
}

/// `{what}: {detail}`
pub open spec fn labelled(what: Seq<char>, detail: Seq<char>) -> Seq<char> {
    what + ": "@ + detail
}

/// `{what}: {detail}`
pub fn label(what: &str, detail: &str) -> (result: String)
    ensures
        result@ == labelled(what@, detail@),
{
    what.to_owned().concat(": ").concat(detail)
}

/// A failed operation, with the message of the call that failed.
pub fn operation_failed(what: &str, detail: &str) -> (result: DesktopCompositionError)
    ensures
        result@ == ErrorView::OperationFailed(labelled(what@, detail@)),
{
    DesktopCompositionError::OperationFailed(label(what, detail))
}

/// The view of an error tells what the error is, and what it holds.
pub proof fn law_error_view_loses_nothing(owner: u32, current: u32, message: String)
    ensures
        DesktopCompositionError::ControllerUnavailable@ == ErrorView::ControllerUnavailable,
        (DesktopCompositionError::WrongThread { owner, current })@ == (ErrorView::WrongThread {
            owner,
            current,
        }),
        DesktopCompositionError::InvalidPresentationWindow@
            == ErrorView::InvalidPresentationWindow,
        DesktopCompositionError::RegistryUnavailable@ == ErrorView::RegistryUnavailable,
        DesktopCompositionError::ControllerAlreadyRegistered@
            == ErrorView::ControllerAlreadyRegistered,
        DesktopCompositionError::OperationFailed(message)@ == ErrorView::OperationFailed(message@),
{
}

/// A result is told apart from an error, and neither is changed.
pub proof fn law_outcome_loses_nothing<T>(value: T, error: DesktopCompositionError)
    ensures
        outcome(Ok::<T, DesktopCompositionError>(value)) == Ok::<T, ErrorView>(value),
        outcome(Err::<T, DesktopCompositionError>(error)) == Err::<T, ErrorView>(error@),
{
}

/// A labelled text is the label, a colon, a space and the detail, whatever they are.
pub proof fn law_label_comes_before_detail(what: Seq<char>, detail: Seq<char>)
    ensures
        labelled(what, detail) == what + seq![':', ' '] + detail,
{
    reveal_strlit(": ");
    assert(": "@ =~= seq![':', ' ']);
}

/// An error on a thread names both threads in full, the owner first; a failed
/// operation shows its own message; every other error has one text.
pub proof fn law_message_tells_the_error(owner: u32, current: u32, message: Seq<char>)
    ensures
        ({
            let text = (ErrorView::WrongThread { owner, current }).message();
            let before = "WebView2 composition controller belongs to UI thread "@;
            let owner_text = text::decimal(owner as nat);
            let between = ", not thread "@;
            let current_text = text::decimal(current as nat);
            text == before + (owner_text + (between + current_text))
        }),
        ErrorView::OperationFailed(message).message() == message,
        ErrorView::ControllerUnavailable.message()
            == "WebView2 composition controller is unavailable"@,
        ErrorView::InvalidPresentationWindow.message()
            == "composition presentation HWND is invalid"@,
        ErrorView::RegistryUnavailable.message()
            == "desktop-composition startup registry is unavailable"@,
        ErrorView::ControllerAlreadyRegistered.message()
            == "a desktop-composition controller is already registered for this HWND"@,
{
    assert((ErrorView::WrongThread { owner, current }).message()
        =~= "WebView2 composition controller belongs to UI thread "@ + (text::decimal(
        owner as nat,
    ) + (", not thread "@ + text::decimal(current as nat))));
}

} // verus!
