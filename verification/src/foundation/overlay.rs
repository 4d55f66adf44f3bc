use vstd::prelude::*;
use crate::foundation::shared::{contains_text, opt_text_view, texts_view};

verus! {

/// The side of the anchor that a floating part is placed on.
#[derive(Clone, Copy, Debug, PartialEq, Eq, Hash, Structural)]
pub enum PlacementSide {
    Top,
    Right,
    Bottom,
    Left,
}

impl PlacementSide {
    pub open spec fn spec_text(self) -> Seq<char> {
        match self {
            PlacementSide::Top => "top"@,
            PlacementSide::Right => "right"@,
            PlacementSide::Bottom => "bottom"@,
            PlacementSide::Left => "left"@,
        }
    }

    pub fn as_str(&self) -> (s: &'static str)
        ensures
            s@ == self.spec_text(),
    {
        match self {
            PlacementSide::Top => "top",
            PlacementSide::Right => "right",
            PlacementSide::Bottom => "bottom",
            PlacementSide::Left => "left",
        }
    }
}

/// The alignment of a floating part along its side.
#[derive(Clone, Copy, Debug, PartialEq, Eq, Hash, Structural)]
pub enum PlacementAlign {
    Start,
    Center,
    End,
}

impl PlacementAlign {
    pub open spec fn spec_text(self) -> Seq<char> {
        match self {
            PlacementAlign::Start => "start"@,
            PlacementAlign::Center => "center"@,
            PlacementAlign::End => "end"@,
        }
    }

    pub fn as_str(&self) -> (s: &'static str)
        ensures
            s@ == self.spec_text(),
    {
        match self {
            PlacementAlign::Start => "start",
            PlacementAlign::Center => "center",
            PlacementAlign::End => "end",
        }
    }
}

/// Where a portal renders its children.
#[derive(Debug, PartialEq, Eq)]
pub enum PortalHost {
    Default,
    Inline,
    Named(String),
}

/// The model of a portal host.
pub enum PortalHostView {
    Default,
    Inline,
    Named(Seq<char>),
}

impl View for PortalHost {
    type V = PortalHostView;

    open spec fn view(&self) -> PortalHostView {
        match self {
            PortalHost::Default => PortalHostView::Default,
            PortalHost::Inline => PortalHostView::Inline,
            PortalHost::Named(name) => PortalHostView::Named(name@),
        }
    }
}

impl Clone for PortalHost {
    fn clone(&self) -> (r: Self)
        ensures
            r@ == self@,
    {
        match self {
            PortalHost::Default => PortalHost::Default,
            PortalHost::Inline => PortalHost::Inline,
            PortalHost::Named(name) => PortalHost::Named(name.clone()),
        }
    }
}

impl PortalHost {
    pub fn default_host() -> (h: Self)
        ensures
            h@ == PortalHostView::Default,
    {
        PortalHost::Default
    }

    pub fn inline() -> (h: Self)
        ensures
            h@ == PortalHostView::Inline,
    {
        PortalHost::Inline
    }
}

/// Placement preferences of a floating part, and the namespace of its geometry variables.
#[derive(Clone, Copy, Debug, PartialEq, Eq)]
pub struct FloatingLayer {
    pub side: PlacementSide,
    pub align: PlacementAlign,
    pub namespace: &'static str,
}

impl FloatingLayer {
    pub fn new(side: PlacementSide) -> (f: Self)
        ensures
            f.side == side,
            f.align == PlacementAlign::Center,
            f.namespace@ == ""@,
    {
        proof {
            reveal_strlit("");
        }
        FloatingLayer { side, align: PlacementAlign::Center, namespace: "" }
    }

    pub fn with_align(self, align: PlacementAlign) -> (f: Self)
        ensures
            f == (FloatingLayer { align, ..self }),
    {
        FloatingLayer { align, ..self }
    }

    pub fn with_namespace(self, namespace: &'static str) -> (f: Self)
        ensures
            f == (FloatingLayer { namespace, ..self }),
    {
        FloatingLayer { namespace, ..self }
    }

    pub fn data_side(&self) -> (s: &'static str)
        ensures
            s@ == self.side.spec_text(),
    {
        self.side.as_str()
    }

    pub fn data_align(&self) -> (s: &'static str)
        ensures
            s@ == self.align.spec_text(),
    {
        self.align.as_str()
    }
}

/// Whether a part should be present, and whether it stays mounted while it leaves.
#[derive(Clone, Copy, Debug, PartialEq, Eq, Structural)]
pub struct Presence {
    pub desired_present: bool,
    pub retain_mount: bool,
}

impl Presence {
    pub fn new(present: bool) -> (p: Self)
        ensures
            p.desired_present == present,
            !p.retain_mount,
    {
        Presence { desired_present: present, retain_mount: false }
    }

    pub fn with_retained_mount(self, retain_mount: bool) -> (p: Self)
        ensures
            p.desired_present == self.desired_present,
            p.retain_mount == retain_mount,
    {
        Presence { retain_mount, ..self }
    }

    pub fn desired_present(&self) -> (b: bool)
        ensures
            b == self.desired_present,
    {
        self.desired_present
    }

    pub fn retain_mount(&self) -> (b: bool)
        ensures
            b == self.retain_mount,
    {
        self.retain_mount
    }
}

/// The mount state of a part that animates out.
#[derive(Clone, Copy, Debug, PartialEq, Eq, Structural)]
pub enum PresenceState {
    /// Mounted and wanted.
    Present,
    /// Still mounted while its exit finishes.
    Suspended,
    /// Not mounted.
    Absent,
}

/// The cycle number after `n`, wrapping to zero after the largest.
pub open spec fn successor(n: u64) -> u64 {
    if n == u64::MAX {
        0
    } else {
        (n + 1) as u64
    }
}

/// The identity of one close cycle.
#[derive(Clone, Copy, Debug, PartialEq, Eq, Structural)]
pub struct PresenceCloseCycleId(pub u64);

/// What one `sync` of a presence controller did.
#[derive(Clone, Copy, Debug, PartialEq, Eq, Structural)]
pub struct PresenceControllerUpdate {
    pub state: PresenceState,
    pub started_close_cycle: Option<PresenceCloseCycleId>,
    pub invalidated_close_cycle: Option<PresenceCloseCycleId>,
    pub should_render: bool,
}

impl PresenceControllerUpdate {
    pub fn state(&self) -> (s: PresenceState)
        ensures
            s == self.state,
    {
        self.state
    }

    pub fn started_close_cycle(&self) -> (c: Option<PresenceCloseCycleId>)
        ensures
            c == self.started_close_cycle,
    {
        self.started_close_cycle
    }

    pub fn invalidated_close_cycle(&self) -> (c: Option<PresenceCloseCycleId>)
        ensures
            c == self.invalidated_close_cycle,
    {
        self.invalidated_close_cycle
    }

    pub fn should_render(&self) -> (b: bool)
        ensures
            b == self.should_render,
    {
        self.should_render
    }
}

/// Tracks the mount state of a part across open and close requests.
#[derive(Clone, Copy, Debug, PartialEq, Eq, Structural)]
pub struct PresenceController {
    pub state: PresenceState,
    pub retain_mount: bool,
    pub pending_cycle: Option<PresenceCloseCycleId>,
    pub next_cycle: u64,
}

impl PresenceController {
    /// The controller is well formed when a close cycle is pending exactly while suspended.
    pub open spec fn wf(self) -> bool {
        (self.state == PresenceState::Suspended) == (self.pending_cycle is Some)
    }

    pub open spec fn spec_should_render(self) -> bool {
        self.state != PresenceState::Absent
    }

    pub fn new(desired_present: bool) -> (c: Self)
        ensures
            c.wf(),
            c.state == (if desired_present { PresenceState::Present } else { PresenceState::Absent }),
            !c.retain_mount,
            c.next_cycle == 0,
    {
        PresenceController {
            state: if desired_present { PresenceState::Present } else { PresenceState::Absent },
            retain_mount: false,
            pending_cycle: None,
            next_cycle: 0,
        }
    }

    pub fn with_retained_mount(self, retain_mount: bool) -> (c: Self)
        ensures
            c == (PresenceController { retain_mount, ..self }),
    {
        PresenceController { retain_mount, ..self }
    }

    pub fn should_render(&self) -> (b: bool)
        ensures
            b == self.spec_should_render(),
    {
        self.state != PresenceState::Absent
    }

    /// Moves the controller toward `desired_present`. Opening invalidates a pending close cycle;
    /// closing a mounted part that retains its mount starts a new close cycle.
    pub fn sync(&mut self, desired_present: bool) -> (u: PresenceControllerUpdate)
        requires
            old(self).wf(),
        ensures
            final(self).wf(),
            final(self).retain_mount == old(self).retain_mount,
            u.state == final(self).state,
            u.should_render == final(self).spec_should_render(),
            desired_present ==> {
                &&& final(self).state == PresenceState::Present
                &&& final(self).pending_cycle is None
                &&& final(self).next_cycle == old(self).next_cycle
                &&& u.started_close_cycle is None
                &&& u.invalidated_close_cycle == old(self).pending_cycle
            },
            !desired_present ==> {
                &&& u.invalidated_close_cycle is None
                &&& if old(self).state == PresenceState::Present && old(self).retain_mount {
                    &&& final(self).state == PresenceState::Suspended
                    &&& final(self).pending_cycle == Some(PresenceCloseCycleId(old(self).next_cycle))
                    &&& u.started_close_cycle == Some(PresenceCloseCycleId(old(self).next_cycle))
                    &&& final(self).next_cycle == successor(old(self).next_cycle)
                } else if old(self).state == PresenceState::Present {
                    &&& final(self).state == PresenceState::Absent
                    &&& final(self).pending_cycle is None
                    &&& final(self).next_cycle == old(self).next_cycle
                    &&& u.started_close_cycle is None
                } else {
                    &&& *final(self) == *old(self)
                    &&& u.started_close_cycle is None
                }
            },
    {
        if desired_present {
            let invalidated = self.pending_cycle;
            self.pending_cycle = None;
            self.state = PresenceState::Present;
            PresenceControllerUpdate {
                state: PresenceState::Present,
                started_close_cycle: None,
                invalidated_close_cycle: invalidated,
                should_render: true,
            }
        } else {
            let mut started = None;
            if self.state == PresenceState::Present {
                if self.retain_mount {
                    let id = PresenceCloseCycleId(self.next_cycle);
                    self.next_cycle = if self.next_cycle == u64::MAX { 0 } else { self.next_cycle + 1 };
                    self.state = PresenceState::Suspended;
                    self.pending_cycle = Some(id);
                    started = Some(id);
                } else {
                    self.state = PresenceState::Absent;
                }
            }
            PresenceControllerUpdate {
                state: self.state,
                started_close_cycle: started,
                invalidated_close_cycle: None,
                should_render: self.state != PresenceState::Absent,
            }
        }
    }

    /// Ends the pending close cycle `cycle_id`; any other id leaves the controller as it was.
    pub fn complete_close_cycle(&mut self, cycle_id: PresenceCloseCycleId) -> (done: bool)
        requires
            old(self).wf(),
        ensures
            final(self).wf(),
            done == (old(self).state == PresenceState::Suspended && old(self).pending_cycle
                == Some(cycle_id)),
            done ==> *final(self) == (PresenceController {
                state: PresenceState::Absent,
                pending_cycle: None,
                ..*old(self)
            }),
            !done ==> *final(self) == *old(self),
    {
        if self.state == PresenceState::Suspended && self.pending_cycle == Some(cycle_id) {
            self.state = PresenceState::Absent;
            self.pending_cycle = None;
            true
        } else {
            false
        }
    }
}

/// The ids of the two sentinels that bracket a focus scope.
#[derive(Debug, PartialEq, Eq)]
pub struct FocusGuards {
    pub before: String,
    pub after: String,
}

impl FocusGuards {
    pub fn new(before: String, after: String) -> (g: Self)
        ensures
            g.before@ == before@,
            g.after@ == after@,
    {
        FocusGuards { before, after }
    }

    pub fn before(&self) -> (s: &String)
        ensures
            s@ == self.before@,
    {
        &self.before
    }

    pub fn after(&self) -> (s: &String)
        ensures
            s@ == self.after@,
    {
        &self.after
    }
}

impl Clone for FocusGuards {
    fn clone(&self) -> (r: Self)
        ensures
            r.before@ == self.before@,
            r.after@ == self.after@,
    {
        FocusGuards { before: self.before.clone(), after: self.after.clone() }
    }
}

/// The model of a focus scope.
pub struct FocusScopeView {
    pub container: Seq<char>,
    pub trap_focus: bool,
    pub loop_focus: bool,
    pub autofocus_enabled: bool,
    pub autofocus_target: Option<Seq<char>>,
    pub restore_target: Option<Seq<char>>,
    pub branches: Seq<Seq<char>>,
}

/// Focus containment for a container and the branches that count as inside it.
#[derive(Debug, PartialEq, Eq)]
pub struct FocusScope {
    container: String,
    trap_focus: bool,
    loop_focus: bool,
    autofocus_enabled: bool,
    autofocus_target: Option<String>,
    restore_target: Option<String>,
    branches: Vec<String>,
}

impl View for FocusScope {
    type V = FocusScopeView;

    closed spec fn view(&self) -> FocusScopeView {
        FocusScopeView {
            container: self.container@,
            trap_focus: self.trap_focus,
            loop_focus: self.loop_focus,
            autofocus_enabled: self.autofocus_enabled,
            autofocus_target: opt_text_view(self.autofocus_target),
            restore_target: opt_text_view(self.restore_target),
            branches: texts_view(self.branches@),
        }
    }
}

fn clone_opt_text(t: &Option<String>) -> (r: Option<String>)
    ensures
        opt_text_view(r) == opt_text_view(*t),
{
    match t {
        Some(s) => Some(s.clone()),
        None => None,
    }
}

fn clone_texts(texts: &Vec<String>) -> (r: Vec<String>)
    ensures
        texts_view(r@) == texts_view(texts@),
{
    let mut r: Vec<String> = Vec::new();
    let mut i: usize = 0;
    while i < texts.len()
        invariant
            0 <= i <= texts@.len(),
            texts_view(r@) == texts_view(texts@).take(i as int),
        decreases texts@.len() - i,
    {
        let ghost before = r@;
        r.push(texts[i].clone());
        assert(texts_view(r@) =~= texts_view(before).push(texts@[i as int]@));
        assert(texts_view(texts@).take(i + 1) =~= texts_view(texts@).take(i as int).push(
            texts@[i as int]@,
        ));
        i = i + 1;
    }
    assert(texts_view(texts@).take(texts@.len() as int) =~= texts_view(texts@));
    r
}

/// Adds `text` to `texts` unless an equal text is there; says whether it was added.
fn register_text(texts: &mut Vec<String>, text: String) -> (added: bool)
    ensures
        added == !texts_view(old(texts)@).contains(text@),
        texts_view(final(texts)@) == if added {
            texts_view(old(texts)@).push(text@)
        } else {
            texts_view(old(texts)@)
        },
{
    if contains_text(texts.as_slice(), text.as_str()) {
        false
    } else {
        let ghost before = texts@;
        texts.push(text);
        assert(texts_view(texts@) =~= texts_view(before).push(text@));
        true
    }
}

impl Clone for FocusScope {
    fn clone(&self) -> (r: Self)
        ensures
            r@ == self@,
    {
        FocusScope {
            container: self.container.clone(),
            trap_focus: self.trap_focus,
            loop_focus: self.loop_focus,
            autofocus_enabled: self.autofocus_enabled,
            autofocus_target: clone_opt_text(&self.autofocus_target),
            restore_target: clone_opt_text(&self.restore_target),
            branches: clone_texts(&self.branches),
        }
    }
}

impl FocusScope {
    pub fn new(container: String) -> (s: Self)
        ensures
            s@ == (FocusScopeView {
                container: container@,
                trap_focus: false,
                loop_focus: false,
                autofocus_enabled: true,
                autofocus_target: None,
                restore_target: None,
                branches: Seq::empty(),
            }),
    {
        let s = FocusScope {
            container,
            trap_focus: false,
            loop_focus: false,
            autofocus_enabled: true,
            autofocus_target: None,
            restore_target: None,
            branches: Vec::new(),
        };
        assert(texts_view(s.branches@) =~= Seq::empty());
        s
    }

    pub fn with_trap_focus(self, trap_focus: bool) -> (s: Self)
        ensures
            s@ == (FocusScopeView { trap_focus, ..self@ }),
    {
        FocusScope { trap_focus, ..self }
    }

    pub fn with_loop_focus(self, loop_focus: bool) -> (s: Self)
        ensures
            s@ == (FocusScopeView { loop_focus, ..self@ }),
    {
        FocusScope { loop_focus, ..self }
    }

    pub fn set_trap_focus(&mut self, trap_focus: bool)
        ensures
            final(self)@ == (FocusScopeView { trap_focus, ..old(self)@ }),
    {
        self.trap_focus = trap_focus;
    }

    pub fn set_loop_focus(&mut self, loop_focus: bool)
        ensures
            final(self)@ == (FocusScopeView { loop_focus, ..old(self)@ }),
    {
        self.loop_focus = loop_focus;
    }

    pub fn set_autofocus_enabled(&mut self, enabled: bool)
        ensures
            final(self)@ == (FocusScopeView { autofocus_enabled: enabled, ..old(self)@ }),
    {
        self.autofocus_enabled = enabled;
    }

    pub fn set_autofocus_target(&mut self, target: Option<String>)
        ensures
            final(self)@ == (FocusScopeView {
                autofocus_target: opt_text_view(target),
                ..old(self)@
            }),
    {
        self.autofocus_target = target;
    }

    pub fn capture_restore_target(&mut self, target: Option<String>)
        ensures
            final(self)@ == (FocusScopeView { restore_target: opt_text_view(target), ..old(self)@ }),
    {
        self.restore_target = target;
    }

    /// Records `branch` as inside the scope; false when it already was.
    pub fn register_branch(&mut self, branch: String) -> (added: bool)
        ensures
            added == !old(self)@.branches.contains(branch@),
            final(self)@ == (FocusScopeView {
                branches: if added {
                    old(self)@.branches.push(branch@)
                } else {
                    old(self)@.branches
                },
                ..old(self)@
            }),
    {
        register_text(&mut self.branches, branch)
    }

    pub fn container(&self) -> (s: &String)
        ensures
            s@ == self@.container,
    {
        &self.container
    }

    pub fn trap_focus(&self) -> (b: bool)
        ensures
            b == self@.trap_focus,
    {
        self.trap_focus
    }

    pub fn loop_focus(&self) -> (b: bool)
        ensures
            b == self@.loop_focus,
    {
        self.loop_focus
    }

    pub fn autofocus_enabled(&self) -> (b: bool)
        ensures
            b == self@.autofocus_enabled,
    {
        self.autofocus_enabled
    }

    pub fn autofocus_target(&self) -> (t: Option<String>)
        ensures
            opt_text_view(t) == self@.autofocus_target,
    {
        clone_opt_text(&self.autofocus_target)
    }

    pub fn restore_target(&self) -> (t: Option<String>)
        ensures
            opt_text_view(t) == self@.restore_target,
    {
        clone_opt_text(&self.restore_target)
    }

    pub fn branches(&self) -> (b: &[String])
        ensures
            texts_view(b@) == self@.branches,
    {
        self.branches.as_slice()
    }
}

/// The model of a dismissable layer.
pub struct DismissLayerView {
    pub id: Seq<char>,
    pub modal: bool,
    pub pointer_down_outside_dismiss: bool,
    pub focus_outside_dismiss: bool,
    pub branches: Seq<Seq<char>>,
}

/// A layer that closes on escape and on interaction outside it and its branches.
#[derive(Debug, PartialEq, Eq)]
pub struct DismissLayer {
    id: String,
    modal: bool,
    pointer_down_outside_dismiss: bool,
    focus_outside_dismiss: bool,
    branches: Vec<String>,
}

impl View for DismissLayer {
    type V = DismissLayerView;

    closed spec fn view(&self) -> DismissLayerView {
        DismissLayerView {
            id: self.id@,
            modal: self.modal,
            pointer_down_outside_dismiss: self.pointer_down_outside_dismiss,
            focus_outside_dismiss: self.focus_outside_dismiss,
            branches: texts_view(self.branches@),
        }
    }
}

impl DismissLayerView {
    /// The layer is the topmost of `stack`.
    pub open spec fn is_top_of(self, stack: Seq<Seq<char>>) -> bool {
        stack.len() > 0 && stack.last() == self.id
    }

    /// `target` is the layer itself or one of its branches.
    pub open spec fn owns(self, target: Seq<char>) -> bool {
        target == self.id || self.branches.contains(target)
    }

    /// An interaction at `target` (if known) lies outside the layer.
    pub open spec fn is_outside(self, target: Option<Seq<char>>) -> bool {
        match target {
            Some(t) => !self.owns(t),
            None => true,
        }
    }
}

impl Clone for DismissLayer {
    fn clone(&self) -> (r: Self)
        ensures
            r@ == self@,
    {
        DismissLayer {
            id: self.id.clone(),
            modal: self.modal,
            pointer_down_outside_dismiss: self.pointer_down_outside_dismiss,
            focus_outside_dismiss: self.focus_outside_dismiss,
            branches: clone_texts(&self.branches),
        }
    }
}

impl DismissLayer {
    pub fn new(id: String) -> (l: Self)
        ensures
            l@ == (DismissLayerView {
                id: id@,
                modal: false,
                pointer_down_outside_dismiss: true,
                focus_outside_dismiss: true,
                branches: Seq::empty(),
            }),
    {
        let l = DismissLayer {
            id,
            modal: false,
            pointer_down_outside_dismiss: true,
            focus_outside_dismiss: true,
            branches: Vec::new(),
        };
        assert(texts_view(l.branches@) =~= Seq::empty());
        l
    }

    pub fn with_modal(self, modal: bool) -> (l: Self)
        ensures
            l@ == (DismissLayerView { modal, ..self@ }),
    {
        DismissLayer { modal, ..self }
    }

    pub fn set_modal(&mut self, modal: bool)
        ensures
            final(self)@ == (DismissLayerView { modal, ..old(self)@ }),
    {
        self.modal = modal;
    }

    pub fn is_modal(&self) -> (b: bool)
        ensures
            b == self@.modal,
    {
        self.modal
    }

    pub fn set_pointer_down_outside_dismiss(&mut self, dismiss: bool)
        ensures
            final(self)@ == (DismissLayerView {
                pointer_down_outside_dismiss: dismiss,
                ..old(self)@
            }),
    {
        self.pointer_down_outside_dismiss = dismiss;
    }

    pub fn set_focus_outside_dismiss(&mut self, dismiss: bool)
        ensures
            final(self)@ == (DismissLayerView { focus_outside_dismiss: dismiss, ..old(self)@ }),
    {
        self.focus_outside_dismiss = dismiss;
    }

    pub fn id(&self) -> (s: &String)
        ensures
            s@ == self@.id,
    {
        &self.id
    }

    pub fn dismisses_pointer_down_outside(&self) -> (b: bool)
        ensures
            b == self@.pointer_down_outside_dismiss,
    {
        self.pointer_down_outside_dismiss
    }

    pub fn dismisses_focus_outside(&self) -> (b: bool)
        ensures
            b == self@.focus_outside_dismiss,
    {
        self.focus_outside_dismiss
    }

    pub fn branches(&self) -> (b: &[String])
        ensures
            texts_view(b@) == self@.branches,
    {
        self.branches.as_slice()
    }

    /// Records `branch` as part of the layer; false when it already was.
    pub fn register_branch(&mut self, branch: String) -> (added: bool)
        ensures
            added == !old(self)@.branches.contains(branch@),
            final(self)@ == (DismissLayerView {
                branches: if added {
                    old(self)@.branches.push(branch@)
                } else {
                    old(self)@.branches
                },
                ..old(self)@
            }),
    {
        register_text(&mut self.branches, branch)
    }

    fn is_top_of(&self, stack: &[String]) -> (b: bool)
        ensures
            b == self@.is_top_of(texts_view(stack@)),
    {
        if stack.len() == 0 {
            false
        } else {
            crate::foundation::shared::text_eq(stack[stack.len() - 1].as_str(), self.id.as_str())
        }
    }

    fn is_outside(&self, target: Option<&String>) -> (b: bool)
        ensures
            b == self@.is_outside(match target {
                Some(t) => Some(t@),
                None => None,
            }),
    {
        match target {
            None => true,
            Some(t) => !(crate::foundation::shared::text_eq(t.as_str(), self.id.as_str())
                || contains_text(self.branches.as_slice(), t.as_str())),
        }
    }

    /// Escape dismisses the topmost layer of `stack`.
    pub fn should_dismiss_escape(&self, stack: &[String]) -> (b: bool)
        ensures
            b == self@.is_top_of(texts_view(stack@)),
    {
        self.is_top_of(stack)
    }

    /// A pointer down outside dismisses the topmost layer when the layer allows it.
    pub fn should_dismiss_outside_pointer(&self, target: Option<&String>, stack: &[String]) -> (b:
        bool)
        ensures
            b == (self@.pointer_down_outside_dismiss && self@.is_top_of(texts_view(stack@))
                && self@.is_outside(match target {
                Some(t) => Some(t@),
                None => None,
            })),
    {
        self.pointer_down_outside_dismiss && self.is_top_of(stack) && self.is_outside(target)
    }

    /// Focus moving outside dismisses the topmost layer when the layer allows it.
    pub fn should_dismiss_outside_focus(&self, target: Option<&String>, stack: &[String]) -> (b:
        bool)
        ensures
            b == (self@.focus_outside_dismiss && self@.is_top_of(texts_view(stack@))
                && self@.is_outside(match target {
                Some(t) => Some(t@),
                None => None,
            })),
    {
        self.focus_outside_dismiss && self.is_top_of(stack) && self.is_outside(target)
    }
}

/// An interaction the document reports to an open overlay: the ids on the event path
/// (innermost first) of a pointer-down or a focus move, or an escape key press.
#[derive(Clone, Debug, PartialEq, Eq)]
pub enum DocumentDismissEvent {
    PointerDown { path_ids: Vec<String> },
    FocusIn { path_ids: Vec<String> },
    Escape,
}

} // verus!
