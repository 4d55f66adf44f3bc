use vstd::prelude::*;
use crate::foundation::shared::opt_text_view;

verus! {

/// Unique identifier of one toast.
#[derive(Clone, Copy, Debug, PartialEq, Eq, PartialOrd, Ord, Hash, Structural)]
pub struct ToastId(pub u64);

/// Semantic type of a toast, which decides its live-region role.
#[derive(Clone, Copy, Debug, PartialEq, Eq, Structural)]
pub enum ToastType {
    Default,
    Success,
    Info,
    Warning,
    Error,
    Loading,
}

impl ToastType {
    pub open spec fn spec_text(self) -> Seq<char> {
        match self {
            ToastType::Default => "default"@,
            ToastType::Success => "success"@,
            ToastType::Info => "info"@,
            ToastType::Warning => "warning"@,
            ToastType::Error => "error"@,
            ToastType::Loading => "loading"@,
        }
    }

    pub fn as_str(&self) -> (s: &'static str)
        ensures
            s@ == self.spec_text(),
    {
        match self {
            ToastType::Default => "default",
            ToastType::Success => "success",
            ToastType::Info => "info",
            ToastType::Warning => "warning",
            ToastType::Error => "error",
            ToastType::Loading => "loading",
        }
    }
}

impl Default for ToastType {
    fn default() -> (t: Self)
        ensures
            t == ToastType::Default,
    {
        ToastType::Default
    }
}

/// Lifecycle phase of a toast in the store.
#[derive(Clone, Copy, Debug, PartialEq, Eq, Structural)]
pub enum ToastPhase {
    /// Shown, with its countdown running.
    Active,
    /// Dismissed and waiting for its exit animation.
    Dismissing,
    /// Finished and evicted.
    Removed,
}

impl ToastPhase {
    pub open spec fn spec_state_text(self) -> Seq<char> {
        match self {
            ToastPhase::Active => "open"@,
            _ => "closed"@,
        }
    }

    pub fn as_state_str(&self) -> (s: &'static str)
        ensures
            s@ == self.spec_state_text(),
    {
        match self {
            ToastPhase::Active => "open",
            ToastPhase::Dismissing | ToastPhase::Removed => "closed",
        }
    }
}

impl Default for ToastPhase {
    fn default() -> (p: Self)
        ensures
            p == ToastPhase::Active,
    {
        ToastPhase::Active
    }
}

/// Allowed pointer swipe directions for dismissing toasts.
#[derive(Clone, Copy, Debug, PartialEq, Eq, Hash, Structural)]
pub enum SwipeDirection {
    Top,
    Right,
    Bottom,
    Left,
}

impl SwipeDirection {
    pub open spec fn spec_text(self) -> Seq<char> {
        match self {
            SwipeDirection::Top => "top"@,
            SwipeDirection::Right => "right"@,
            SwipeDirection::Bottom => "bottom"@,
            SwipeDirection::Left => "left"@,
        }
    }

    pub fn as_str(&self) -> (s: &'static str)
        ensures
            s@ == self.spec_text(),
    {
        match self {
            SwipeDirection::Top => "top",
            SwipeDirection::Right => "right",
            SwipeDirection::Bottom => "bottom",
            SwipeDirection::Left => "left",
        }
    }
}

/// Corner of the screen the viewport sits in.
#[derive(Clone, Copy, Debug, PartialEq, Eq, Structural)]
pub enum ToastPosition {
    TopLeft,
    TopRight,
    TopCenter,
    BottomLeft,
    BottomRight,
    BottomCenter,
}

impl Default for ToastPosition {
    fn default() -> (p: Self)
        ensures
            p == ToastPosition::BottomRight,
    {
        ToastPosition::BottomRight
    }
}

impl ToastPosition {
    pub open spec fn spec_text(self) -> Seq<char> {
        match self {
            ToastPosition::TopLeft => "top-left"@,
            ToastPosition::TopRight => "top-right"@,
            ToastPosition::TopCenter => "top-center"@,
            ToastPosition::BottomLeft => "bottom-left"@,
            ToastPosition::BottomRight => "bottom-right"@,
            ToastPosition::BottomCenter => "bottom-center"@,
        }
    }

    pub open spec fn spec_x_text(self) -> Seq<char> {
        match self {
            ToastPosition::TopLeft | ToastPosition::BottomLeft => "left"@,
            ToastPosition::TopCenter | ToastPosition::BottomCenter => "center"@,
            ToastPosition::TopRight | ToastPosition::BottomRight => "right"@,
        }
    }

    pub open spec fn spec_y_text(self) -> Seq<char> {
        match self {
            ToastPosition::TopLeft | ToastPosition::TopCenter | ToastPosition::TopRight => "top"@,
            _ => "bottom"@,
        }
    }

    /// The swipe directions that lead off screen from this corner.
    pub open spec fn spec_default_swipe_directions(self) -> Seq<SwipeDirection> {
        match self {
            ToastPosition::TopLeft => seq![SwipeDirection::Top, SwipeDirection::Left],
            ToastPosition::TopRight => seq![SwipeDirection::Top, SwipeDirection::Right],
            ToastPosition::TopCenter => seq![SwipeDirection::Top],
            ToastPosition::BottomLeft => seq![SwipeDirection::Bottom, SwipeDirection::Left],
            ToastPosition::BottomRight => seq![SwipeDirection::Bottom, SwipeDirection::Right],
            ToastPosition::BottomCenter => seq![SwipeDirection::Bottom],
        }
    }

    pub fn as_str(&self) -> (s: &'static str)
        ensures
            s@ == self.spec_text(),
    {
        match self {
            ToastPosition::TopLeft => "top-left",
            ToastPosition::TopRight => "top-right",
            ToastPosition::TopCenter => "top-center",
            ToastPosition::BottomLeft => "bottom-left",
            ToastPosition::BottomRight => "bottom-right",
            ToastPosition::BottomCenter => "bottom-center",
        }
    }

    /// Horizontal alignment: left, center or right.
    pub fn x_str(&self) -> (s: &'static str)
        ensures
            s@ == self.spec_x_text(),
    {
        match self {
            ToastPosition::TopLeft | ToastPosition::BottomLeft => "left",
            ToastPosition::TopCenter | ToastPosition::BottomCenter => "center",
            ToastPosition::TopRight | ToastPosition::BottomRight => "right",
        }
    }

    /// Vertical anchor: top or bottom.
    pub fn y_str(&self) -> (s: &'static str)
        ensures
            s@ == self.spec_y_text(),
    {
        match self {
            ToastPosition::TopLeft | ToastPosition::TopCenter | ToastPosition::TopRight => "top",
            ToastPosition::BottomLeft | ToastPosition::BottomCenter | ToastPosition::BottomRight => {
                "bottom"
            },
        }
    }

    pub fn default_swipe_directions(&self) -> (d: Vec<SwipeDirection>)
        ensures
            d@ == self.spec_default_swipe_directions(),
    {
        let d = match self {
            ToastPosition::TopLeft => vec![SwipeDirection::Top, SwipeDirection::Left],
            ToastPosition::TopRight => vec![SwipeDirection::Top, SwipeDirection::Right],
            ToastPosition::TopCenter => vec![SwipeDirection::Top],
            ToastPosition::BottomLeft => vec![SwipeDirection::Bottom, SwipeDirection::Left],
            ToastPosition::BottomRight => vec![SwipeDirection::Bottom, SwipeDirection::Right],
            ToastPosition::BottomCenter => vec![SwipeDirection::Bottom],
        };
        assert(d@ =~= self.spec_default_swipe_directions());
        d
    }
}

/// Reading direction of the viewport.
#[derive(Clone, Copy, Debug, PartialEq, Eq, Structural)]
pub enum ToastDirection {
    Auto,
    Ltr,
    Rtl,
}

impl Default for ToastDirection {
    fn default() -> (d: Self)
        ensures
            d == ToastDirection::Auto,
    {
        ToastDirection::Auto
    }
}

impl ToastDirection {
    pub open spec fn spec_text(self) -> Seq<char> {
        match self {
            ToastDirection::Auto => "auto"@,
            ToastDirection::Ltr => "ltr"@,
            ToastDirection::Rtl => "rtl"@,
        }
    }

    pub fn as_str(&self) -> (s: &'static str)
        ensures
            s@ == self.spec_text(),
    {
        match self {
            ToastDirection::Auto => "auto",
            ToastDirection::Ltr => "ltr",
            ToastDirection::Rtl => "rtl",
        }
    }
}

pub(crate) fn clone_opt(t: &Option<String>) -> (r: Option<String>)
    ensures
        r == *t,
{
    match t {
        Some(s) => Some(s.clone()),
        None => None,
    }
}

/// Edge offsets of the viewport, each a CSS length.
#[derive(Debug, PartialEq)]
pub struct ToastOffset {
    pub top: Option<String>,
    pub right: Option<String>,
    pub bottom: Option<String>,
    pub left: Option<String>,
}

impl Clone for ToastOffset {
    fn clone(&self) -> (r: Self)
        ensures
            r == *self,
    {
        ToastOffset {
            top: clone_opt(&self.top),
            right: clone_opt(&self.right),
            bottom: clone_opt(&self.bottom),
            left: clone_opt(&self.left),
        }
    }
}

impl ToastOffset {
    /// All four edges set to `value`.
    pub fn uniform(value: String) -> (o: Self)
        ensures
            o.top == Some(value),
            o.right == Some(value),
            o.bottom == Some(value),
            o.left == Some(value),
    {
        ToastOffset {
            top: Some(value.clone()),
            right: Some(value.clone()),
            bottom: Some(value.clone()),
            left: Some(value),
        }
    }

    /// No edge set.
    pub fn new() -> (o: Self)
        ensures
            o.top is None && o.right is None && o.bottom is None && o.left is None,
    {
        ToastOffset { top: None, right: None, bottom: None, left: None }
    }

    pub fn with_top(self, val: String) -> (o: Self)
        ensures
            o == (ToastOffset { top: Some(val), ..self }),
    {
        ToastOffset { top: Some(val), ..self }
    }

    pub fn with_right(self, val: String) -> (o: Self)
        ensures
            o == (ToastOffset { right: Some(val), ..self }),
    {
        ToastOffset { right: Some(val), ..self }
    }

    pub fn with_bottom(self, val: String) -> (o: Self)
        ensures
            o == (ToastOffset { bottom: Some(val), ..self }),
    {
        ToastOffset { bottom: Some(val), ..self }
    }

    pub fn with_left(self, val: String) -> (o: Self)
        ensures
            o == (ToastOffset { left: Some(val), ..self }),
    {
        ToastOffset { left: Some(val), ..self }
    }
}

impl Default for ToastOffset {
    /// Every edge at `32px`.
    fn default() -> (o: Self)
        ensures
            opt_text_view(o.top) == Some("32px"@),
            opt_text_view(o.right) == Some("32px"@),
            opt_text_view(o.bottom) == Some("32px"@),
            opt_text_view(o.left) == Some("32px"@),
    {
        proof {
            reveal_strlit("32px");
        }
        Self::uniform("32px".to_owned())
    }
}

/// Label and accessible text of an action or cancel button.
#[derive(Debug, PartialEq)]
pub struct ToastActionData {
    pub label: String,
    pub alt_text: String,
}

impl Clone for ToastActionData {
    fn clone(&self) -> (r: Self)
        ensures
            r == *self,
    {
        ToastActionData { label: self.label.clone(), alt_text: self.alt_text.clone() }
    }
}

impl ToastActionData {
    pub fn new(label: String, alt_text: String) -> (a: Self)
        ensures
            a.label == label,
            a.alt_text == alt_text,
    {
        ToastActionData { label, alt_text }
    }
}

fn clone_opt_action(a: &Option<ToastActionData>) -> (r: Option<ToastActionData>)
    ensures
        r == *a,
{
    match a {
        Some(x) => Some(x.clone()),
        None => None,
    }
}

/// Per-toast overrides. Durations are in milliseconds.
#[derive(Debug, PartialEq)]
pub struct ToastOptions {
    pub id: Option<ToastId>,
    pub description: Option<String>,
    pub duration: Option<u64>,
    pub action: Option<ToastActionData>,
    pub cancel: Option<ToastActionData>,
    pub dismissible: Option<bool>,
    pub position: Option<ToastPosition>,
    pub test_id: Option<String>,
}

impl Clone for ToastOptions {
    fn clone(&self) -> (r: Self)
        ensures
            r == *self,
    {
        ToastOptions {
            id: self.id,
            description: clone_opt(&self.description),
            duration: self.duration,
            action: clone_opt_action(&self.action),
            cancel: clone_opt_action(&self.cancel),
            dismissible: self.dismissible,
            position: self.position,
            test_id: clone_opt(&self.test_id),
        }
    }
}

impl ToastOptions {
    /// No override set.
    pub open spec fn spec_none() -> Self {
        ToastOptions {
            id: None,
            description: None,
            duration: None,
            action: None,
            cancel: None,
            dismissible: None,
            position: None,
            test_id: None,
        }
    }

    pub fn none() -> (o: Self)
        ensures
            o == Self::spec_none(),
    {
        ToastOptions {
            id: None,
            description: None,
            duration: None,
            action: None,
            cancel: None,
            dismissible: None,
            position: None,
            test_id: None,
        }
    }
}

impl Default for ToastOptions {
    /// No override set.
    fn default() -> (o: Self)
        ensures
            o.id is None && o.description is None && o.duration is None && o.action is None
                && o.cancel is None && o.dismissible is None && o.position is None
                && o.test_id is None,
    {
        ToastOptions {
            id: None,
            description: None,
            duration: None,
            action: None,
            cancel: None,
            dismissible: None,
            position: None,
            test_id: None,
        }
    }
}

/// Toaster-wide defaults. Durations are in milliseconds.
#[derive(Clone, Debug, PartialEq)]
pub struct ToastConfig {
    pub duration: u64,
    pub position: ToastPosition,
    pub hotkey: String,
    pub visible_toasts: usize,
    pub pause_when_page_is_hidden: bool,
    pub container_aria_label: String,
    pub close_button_aria_label: String,
    pub dir: ToastDirection,
    pub offset: ToastOffset,
    pub mobile_offset: ToastOffset,
    pub swipe_directions: Option<Vec<SwipeDirection>>,
}

impl ToastConfig {
    /// The configured swipe directions, or those of the position when none are configured.
    pub open spec fn spec_effective_swipe_directions(self) -> Seq<SwipeDirection> {
        match self.swipe_directions {
            Some(d) => d@,
            None => self.position.spec_default_swipe_directions(),
        }
    }

    pub fn effective_swipe_directions(&self) -> (d: Vec<SwipeDirection>)
        ensures
            d@ == self.spec_effective_swipe_directions(),
    {
        match &self.swipe_directions {
            Some(d) => {
                let mut r: Vec<SwipeDirection> = Vec::new();
                let mut i: usize = 0;
                while i < d.len()
                    invariant
                        0 <= i <= d@.len(),
                        r@ == d@.take(i as int),
                    decreases d@.len() - i,
                {
                    r.push(d[i]);
                    assert(d@.take(i + 1) =~= d@.take(i as int).push(d@[i as int]));
                    i = i + 1;
                }
                assert(d@.take(d@.len() as int) =~= d@);
                r
            },
            None => self.position.default_swipe_directions(),
        }
    }
}

impl Default for ToastConfig {
    /// Four seconds, bottom right, hotkey F8, three visible toasts.
    fn default() -> (c: Self)
        ensures
            c.duration == 4000,
            c.position == ToastPosition::BottomRight,
            c.hotkey@ == "F8"@,
            c.visible_toasts == 3,
            c.pause_when_page_is_hidden,
            c.container_aria_label@ == "Notifications ({hotkey})"@,
            c.close_button_aria_label@ == "Close notification"@,
            c.dir == ToastDirection::Auto,
            opt_text_view(c.offset.top) == Some("32px"@),
            opt_text_view(c.offset.right) == Some("32px"@),
            opt_text_view(c.offset.bottom) == Some("32px"@),
            opt_text_view(c.offset.left) == Some("32px"@),
            opt_text_view(c.mobile_offset.top) == Some("16px"@),
            opt_text_view(c.mobile_offset.right) == Some("16px"@),
            opt_text_view(c.mobile_offset.bottom) == Some("16px"@),
            opt_text_view(c.mobile_offset.left) == Some("16px"@),
            c.swipe_directions is None,
    {
        proof {
            reveal_strlit("F8");
            reveal_strlit("Notifications ({hotkey})");
            reveal_strlit("Close notification");
            reveal_strlit("16px");
        }
        ToastConfig {
            duration: 4000,
            position: ToastPosition::BottomRight,
            hotkey: "F8".to_owned(),
            visible_toasts: 3,
            pause_when_page_is_hidden: true,
            container_aria_label: "Notifications ({hotkey})".to_owned(),
            close_button_aria_label: "Close notification".to_owned(),
            dir: ToastDirection::Auto,
            offset: ToastOffset::default(),
            mobile_offset: ToastOffset::uniform("16px".to_owned()),
            swipe_directions: None,
        }
    }
}

/// A point in time, in milliseconds of a monotonic clock.
#[derive(Clone, Copy, Debug, PartialEq, Eq, PartialOrd, Structural)]
pub struct ToastInstant {
    pub millis: u64,
}

impl ToastInstant {
    pub fn from_millis(millis: u64) -> (i: Self)
        ensures
            i.millis == millis,
    {
        ToastInstant { millis }
    }

    /// Milliseconds from `earlier` to this instant, or zero when `earlier` is later.
    pub open spec fn spec_duration_since(self, earlier: Self) -> u64 {
        if self.millis >= earlier.millis {
            (self.millis - earlier.millis) as u64
        } else {
            0
        }
    }

    pub fn saturating_duration_since(&self, earlier: Self) -> (d: u64)
        ensures
            d == self.spec_duration_since(earlier),
    {
        self.millis.saturating_sub(earlier.millis)
    }
}

/// A queued toast. Durations are in milliseconds.
#[derive(Debug, PartialEq)]
pub struct ToastItem {
    pub id: ToastId,
    pub toast_type: ToastType,
    pub title: String,
    pub description: Option<String>,
    pub phase: ToastPhase,
    pub duration: u64,
    pub remaining_duration: u64,
    pub created_at: ToastInstant,
    pub last_started_at: ToastInstant,
    pub paused_at: Option<ToastInstant>,
    pub options: ToastOptions,
}

impl Clone for ToastItem {
    fn clone(&self) -> (r: Self)
        ensures
            r == *self,
    {
        ToastItem {
            id: self.id,
            toast_type: self.toast_type,
            title: self.title.clone(),
            description: clone_opt(&self.description),
            phase: self.phase,
            duration: self.duration,
            remaining_duration: self.remaining_duration,
            created_at: self.created_at,
            last_started_at: self.last_started_at,
            paused_at: self.paused_at,
            options: self.options.clone(),
        }
    }
}

impl ToastItem {
    /// An active toast created at `now`, with its whole duration remaining and the
    /// description taken from the options.
    pub fn new(
        id: ToastId,
        toast_type: ToastType,
        title: String,
        duration: u64,
        options: ToastOptions,
        now: ToastInstant,
    ) -> (t: Self)
        ensures
            t == (ToastItem {
                id,
                toast_type,
                title,
                description: options.description,
                phase: ToastPhase::Active,
                duration,
                remaining_duration: duration,
                created_at: now,
                last_started_at: now,
                paused_at: None,
                options,
            }),
    {
        ToastItem {
            id,
            toast_type,
            title,
            description: clone_opt(&options.description),
            phase: ToastPhase::Active,
            duration,
            remaining_duration: duration,
            created_at: now,
            last_started_at: now,
            paused_at: None,
            options,
        }
    }
}

/// The event an action button hands its handler; the handler can keep the toast from being
/// dismissed.
#[derive(Clone, Copy, Debug, Default, PartialEq, Eq, Structural)]
pub struct ToastActionEvent {
    pub default_prevented: bool,
}

impl ToastActionEvent {
    pub fn new() -> (e: Self)
        ensures
            !e.default_prevented,
    {
        ToastActionEvent { default_prevented: false }
    }

    /// Keeps the toast from being dismissed after the action.
    pub fn prevent_default(&mut self)
        ensures
            final(self).default_prevented,
    {
        self.default_prevented = true;
    }

    pub fn is_default_prevented(&self) -> (b: bool)
        ensures
            b == self.default_prevented,
    {
        self.default_prevented
    }
}

impl ToastItem {
    /// A toast shows its close button unless its options make it not dismissible.
    pub fn shows_close_button(&self) -> (b: bool)
        ensures
            b == (self.options.dismissible != Some(false)),
    {
        match self.options.dismissible {
            Some(d) => d,
            None => true,
        }
    }
}

} // verus!
