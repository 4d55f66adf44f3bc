use vstd::prelude::*;
use crate::foundation::state::DataState;

verus! {

pub const POPOVER_GEOMETRY_NAMESPACE: &'static str = "popover";

/// Where focus goes when the popover opens.
#[derive(Debug, PartialEq, Eq)]
pub enum PopoverOpenFocusPolicy {
    FirstFocusable,
    Target(String),
    Suppress,
}

/// The model of an open-focus policy.
pub enum OpenFocusPolicyView {
    FirstFocusable,
    Target(Seq<char>),
    Suppress,
}

impl View for PopoverOpenFocusPolicy {
    type V = OpenFocusPolicyView;

    open spec fn view(&self) -> OpenFocusPolicyView {
        match self {
            PopoverOpenFocusPolicy::FirstFocusable => OpenFocusPolicyView::FirstFocusable,
            PopoverOpenFocusPolicy::Target(t) => OpenFocusPolicyView::Target(t@),
            PopoverOpenFocusPolicy::Suppress => OpenFocusPolicyView::Suppress,
        }
    }
}

impl Clone for PopoverOpenFocusPolicy {
    fn clone(&self) -> (r: Self)
        ensures
            r@ == self@,
    {
        match self {
            PopoverOpenFocusPolicy::FirstFocusable => PopoverOpenFocusPolicy::FirstFocusable,
            PopoverOpenFocusPolicy::Target(t) => PopoverOpenFocusPolicy::Target(t.clone()),
            PopoverOpenFocusPolicy::Suppress => PopoverOpenFocusPolicy::Suppress,
        }
    }
}

/// Where focus goes when the popover closes.
#[derive(Debug, PartialEq, Eq)]
pub enum PopoverCloseFocusPolicy {
    Trigger,
    Target(String),
    /// Focus is left where it is.
    NoFocus,
}

/// The model of a close-focus policy.
pub enum CloseFocusPolicyView {
    Trigger,
    Target(Seq<char>),
    NoFocus,
}

impl View for PopoverCloseFocusPolicy {
    type V = CloseFocusPolicyView;

    open spec fn view(&self) -> CloseFocusPolicyView {
        match self {
            PopoverCloseFocusPolicy::Trigger => CloseFocusPolicyView::Trigger,
            PopoverCloseFocusPolicy::Target(t) => CloseFocusPolicyView::Target(t@),
            PopoverCloseFocusPolicy::NoFocus => CloseFocusPolicyView::NoFocus,
        }
    }
}

impl Clone for PopoverCloseFocusPolicy {
    fn clone(&self) -> (r: Self)
        ensures
            r@ == self@,
    {
        match self {
            PopoverCloseFocusPolicy::Trigger => PopoverCloseFocusPolicy::Trigger,
            PopoverCloseFocusPolicy::Target(t) => PopoverCloseFocusPolicy::Target(t.clone()),
            PopoverCloseFocusPolicy::NoFocus => PopoverCloseFocusPolicy::NoFocus,
        }
    }
}

/// What an outside interaction does to an open popover.
#[derive(Clone, Copy, Debug, PartialEq, Eq, Structural)]
pub enum PopoverOutsideDismissBehavior {
    Dismiss,
    Ignore,
}

impl PopoverOutsideDismissBehavior {
    pub open spec fn spec_dismisses(self) -> bool {
        self == PopoverOutsideDismissBehavior::Dismiss
    }

    pub fn dismisses(self) -> (b: bool)
        ensures
            b == self.spec_dismisses(),
    {
        match self {
            PopoverOutsideDismissBehavior::Dismiss => true,
            PopoverOutsideDismissBehavior::Ignore => false,
        }
    }
}

/// How pointer-down and focus outside the popover are treated.
#[derive(Clone, Copy, Debug, PartialEq, Eq, Structural)]
pub struct PopoverOutsideInteractionPolicy {
    pub(crate) pointer_down_outside: PopoverOutsideDismissBehavior,
    pub(crate) focus_outside: PopoverOutsideDismissBehavior,
}

impl PopoverOutsideInteractionPolicy {
    pub open(crate) spec fn spec_pointer_down_outside(self) -> PopoverOutsideDismissBehavior {
        self.pointer_down_outside
    }

    pub open(crate) spec fn spec_focus_outside(self) -> PopoverOutsideDismissBehavior {
        self.focus_outside
    }

    pub fn new(
        pointer_down_outside: PopoverOutsideDismissBehavior,
        focus_outside: PopoverOutsideDismissBehavior,
    ) -> (p: Self)
        ensures
            p.spec_pointer_down_outside() == pointer_down_outside,
            p.spec_focus_outside() == focus_outside,
    {
        PopoverOutsideInteractionPolicy { pointer_down_outside, focus_outside }
    }

    /// The policy of a modal popover: pointer-down outside dismisses, focus outside does not.
    pub open(crate) spec fn spec_modal_default() -> Self {
        PopoverOutsideInteractionPolicy {
            pointer_down_outside: PopoverOutsideDismissBehavior::Dismiss,
            focus_outside: PopoverOutsideDismissBehavior::Ignore,
        }
    }

    /// The policy of a non-modal popover: both outside interactions dismiss.
    pub open(crate) spec fn spec_non_modal_default() -> Self {
        PopoverOutsideInteractionPolicy {
            pointer_down_outside: PopoverOutsideDismissBehavior::Dismiss,
            focus_outside: PopoverOutsideDismissBehavior::Dismiss,
        }
    }

    pub fn modal_default() -> (p: Self)
        ensures
            p == Self::spec_modal_default(),
            p.spec_pointer_down_outside() == PopoverOutsideDismissBehavior::Dismiss,
            p.spec_focus_outside() == PopoverOutsideDismissBehavior::Ignore,
    {
        Self::new(PopoverOutsideDismissBehavior::Dismiss, PopoverOutsideDismissBehavior::Ignore)
    }

    pub fn non_modal_default() -> (p: Self)
        ensures
            p == Self::spec_non_modal_default(),
            p.spec_pointer_down_outside() == PopoverOutsideDismissBehavior::Dismiss,
            p.spec_focus_outside() == PopoverOutsideDismissBehavior::Dismiss,
    {
        Self::new(PopoverOutsideDismissBehavior::Dismiss, PopoverOutsideDismissBehavior::Dismiss)
    }

    pub fn pointer_down_outside(&self) -> (b: PopoverOutsideDismissBehavior)
        ensures
            b == self.spec_pointer_down_outside(),
    {
        self.pointer_down_outside
    }

    pub fn focus_outside(&self) -> (b: PopoverOutsideDismissBehavior)
        ensures
            b == self.spec_focus_outside(),
    {
        self.focus_outside
    }
}

/// Whether the page scroll is locked while the popover is open.
#[derive(Clone, Copy, Debug, PartialEq, Eq, Structural)]
pub struct PopoverScrollLockPolicy {
    pub(crate) enabled: bool,
    pub(crate) restore_delay: Option<u64>,
}

impl PopoverScrollLockPolicy {
    pub open(crate) spec fn spec_enabled(self) -> bool {
        self.enabled
    }

    pub open(crate) spec fn spec_restore_delay(self) -> Option<u64> {
        self.restore_delay
    }

    /// The policy with the lock `enabled` and no restore delay.
    pub open(crate) spec fn spec_new(enabled: bool) -> Self {
        PopoverScrollLockPolicy { enabled, restore_delay: None }
    }

    pub fn new(enabled: bool) -> (p: Self)
        ensures
            p == Self::spec_new(enabled),
            p.spec_enabled() == enabled,
            p.spec_restore_delay() is None,
    {
        PopoverScrollLockPolicy { enabled, restore_delay: None }
    }

    pub fn enabled() -> (p: Self)
        ensures
            p == Self::spec_new(true),
            p.spec_enabled(),
            p.spec_restore_delay() is None,
    {
        Self::new(true)
    }

    pub fn disabled() -> (p: Self)
        ensures
            p == Self::spec_new(false),
            !p.spec_enabled(),
            p.spec_restore_delay() is None,
    {
        Self::new(false)
    }

    pub fn with_restore_delay(self, restore_delay: Option<u64>) -> (p: Self)
        ensures
            p.spec_enabled() == self.spec_enabled(),
            p.spec_restore_delay() == restore_delay,
    {
        PopoverScrollLockPolicy { restore_delay, ..self }
    }

    pub fn is_enabled(&self) -> (b: bool)
        ensures
            b == self.spec_enabled(),
    {
        self.enabled
    }

    pub fn restore_delay(&self) -> (d: Option<u64>)
        ensures
            d == self.spec_restore_delay(),
    {
        self.restore_delay
    }
}

pub const POPOVER_PARTS: [PopoverPart; 7] = [
    PopoverPart::Root,
    PopoverPart::Trigger,
    PopoverPart::Portal,
    PopoverPart::Content,
    PopoverPart::Arrow,
    PopoverPart::Anchor,
    PopoverPart::Close,
];

/// The parts a popover is made of.
#[derive(Clone, Copy, Debug, PartialEq, Eq, Hash, Structural)]
pub enum PopoverPart {
    Root,
    Trigger,
    Portal,
    Content,
    Arrow,
    Anchor,
    Close,
}

impl PopoverPart {
    pub open spec fn spec_text(self) -> Seq<char> {
        match self {
            PopoverPart::Root => "root"@,
            PopoverPart::Trigger => "trigger"@,
            PopoverPart::Portal => "portal"@,
            PopoverPart::Content => "content"@,
            PopoverPart::Arrow => "arrow"@,
            PopoverPart::Anchor => "anchor"@,
            PopoverPart::Close => "close"@,
        }
    }

    pub fn as_str(&self) -> (s: &'static str)
        ensures
            s@ == self.spec_text(),
    {
        match self {
            PopoverPart::Root => "root",
            PopoverPart::Trigger => "trigger",
            PopoverPart::Portal => "portal",
            PopoverPart::Content => "content",
            PopoverPart::Arrow => "arrow",
            PopoverPart::Anchor => "anchor",
            PopoverPart::Close => "close",
        }
    }
}

/// A request to change the open state.
#[derive(Clone, Copy, Debug, PartialEq, Eq, Hash, Structural)]
pub enum PopoverStateRequest {
    Open,
    Close,
    Toggle,
}

impl PopoverStateRequest {
    /// The open state after the request is applied to `current_open`.
    pub open spec fn spec_next_open(self, current_open: bool) -> bool {
        match self {
            PopoverStateRequest::Open => true,
            PopoverStateRequest::Close => false,
            PopoverStateRequest::Toggle => !current_open,
        }
    }

    pub fn next_open(self, current_open: bool) -> (b: bool)
        ensures
            b == self.spec_next_open(current_open),
    {
        match self {
            PopoverStateRequest::Open => true,
            PopoverStateRequest::Close => false,
            PopoverStateRequest::Toggle => !current_open,
        }
    }

    pub fn data_state(self, current_open: bool) -> (s: DataState)
        ensures
            s == DataState::spec_from_open(self.spec_next_open(current_open)),
    {
        if self.next_open(current_open) {
            DataState::Open
        } else {
            DataState::Closed
        }
    }
}

/// Toggling twice gives back the open state one started from.
pub proof fn lemma_toggle_twice_is_identity(open: bool)
    ensures
        PopoverStateRequest::Toggle.spec_next_open(
            PopoverStateRequest::Toggle.spec_next_open(open),
        ) == open,
{
}

/// Open and Close requests are idempotent: applying one again changes nothing.
pub proof fn lemma_open_close_idempotent(request: PopoverStateRequest, open: bool)
    requires
        request != PopoverStateRequest::Toggle,
    ensures
        request.spec_next_open(request.spec_next_open(open)) == request.spec_next_open(open),
{
}

} // verus!
