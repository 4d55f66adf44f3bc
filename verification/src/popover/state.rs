use vstd::prelude::*;
use crate::foundation::{
    overlay::{
        DismissLayer, DismissLayerView, FloatingLayer, FocusGuards, FocusScope, FocusScopeView,
        PlacementAlign, PlacementSide, PortalHost, PortalHostView, Presence,
    },
    shared::{opt_text_view, qualified, ScopeHandle},
    state::DataState,
};
use super::{
    attrs::{
        PopoverAnchorAttributes, PopoverArrowAttributes, PopoverCloseAttributes,
        PopoverContentAttributes, PopoverPortalAttributes, PopoverRootAttributes,
        PopoverTriggerAttributes,
    },
    relationships::{PopoverRelationships, PopoverRelationshipsView},
    types::{
        CloseFocusPolicyView, OpenFocusPolicyView, PopoverCloseFocusPolicy, PopoverOpenFocusPolicy,
        PopoverOutsideInteractionPolicy, PopoverPart, PopoverScrollLockPolicy, PopoverStateRequest,
        POPOVER_GEOMETRY_NAMESPACE, POPOVER_PARTS,
    },
};

verus! {

/// The outside-interaction policy a popover starts with.
pub open spec fn default_outside_policy(modal: bool) -> PopoverOutsideInteractionPolicy {
    if modal {
        PopoverOutsideInteractionPolicy::spec_modal_default()
    } else {
        PopoverOutsideInteractionPolicy::spec_non_modal_default()
    }
}

/// The scroll-lock policy a popover starts with: locked exactly when modal.
pub open spec fn default_scroll_policy(modal: bool) -> PopoverScrollLockPolicy {
    PopoverScrollLockPolicy::spec_new(modal)
}

/// The model of a popover lifecycle.
pub struct PopoverLifecycleView {
    pub portal_host: PortalHostView,
    pub presence: Presence,
    pub focus_scope: FocusScopeView,
    pub focus_guard_before: Seq<char>,
    pub focus_guard_after: Seq<char>,
    pub dismiss_layer: DismissLayerView,
    pub floating: FloatingLayer,
    pub modal: bool,
    pub open_focus_policy: OpenFocusPolicyView,
    pub close_focus_policy: CloseFocusPolicyView,
    pub default_restore_focus_target: Seq<char>,
    pub scroll_lock_policy: PopoverScrollLockPolicy,
    pub outside_interaction_policy: PopoverOutsideInteractionPolicy,
}

/// The dismiss layer with the outside flags that `policy` asks for.
pub open spec fn layer_with_policy(
    layer: DismissLayerView,
    policy: PopoverOutsideInteractionPolicy,
) -> DismissLayerView {
    DismissLayerView {
        pointer_down_outside_dismiss: policy.spec_pointer_down_outside().spec_dismisses(),
        focus_outside_dismiss: policy.spec_focus_outside().spec_dismisses(),
        ..layer
    }
}

/// The focus scope with the autofocus settings that `policy` asks for.
pub open spec fn scope_with_open_policy(
    scope: FocusScopeView,
    policy: OpenFocusPolicyView,
) -> FocusScopeView {
    match policy {
        OpenFocusPolicyView::FirstFocusable => FocusScopeView {
            autofocus_enabled: true,
            autofocus_target: None,
            ..scope
        },
        OpenFocusPolicyView::Target(t) => FocusScopeView {
            autofocus_enabled: true,
            autofocus_target: Some(t),
            ..scope
        },
        OpenFocusPolicyView::Suppress => FocusScopeView {
            autofocus_enabled: false,
            autofocus_target: None,
            ..scope
        },
    }
}

/// The restore target that `policy` asks for.
pub open spec fn restore_target_for(policy: CloseFocusPolicyView, trigger: Seq<char>) -> Option<
    Seq<char>,
> {
    match policy {
        CloseFocusPolicyView::Trigger => Some(trigger),
        CloseFocusPolicyView::Target(t) => Some(t),
        CloseFocusPolicyView::NoFocus => None,
    }
}

impl PopoverLifecycleView {
    /// The parts of the lifecycle agree with one another.
    pub open spec fn wf(self) -> bool {
        &&& self.focus_scope.trap_focus == self.modal
        &&& self.focus_scope.loop_focus == self.modal
        &&& self.dismiss_layer.modal == self.modal
        &&& self.dismiss_layer == layer_with_policy(
            self.dismiss_layer,
            self.outside_interaction_policy,
        )
        &&& self.focus_scope == scope_with_open_policy(self.focus_scope, self.open_focus_policy)
        &&& self.focus_scope.restore_target == restore_target_for(
            self.close_focus_policy,
            self.default_restore_focus_target,
        )
        &&& self.focus_scope.branches == self.dismiss_layer.branches
        &&& self.floating.namespace@ == "popover"@
    }

    /// The lifecycle after `set_modal(modal)`: containment follows the new mode, and each
    /// policy that still had the default of the old mode takes the default of the new one.
    pub open spec fn after_set_modal(self, modal: bool) -> PopoverLifecycleView {
        let outside = if self.outside_interaction_policy == default_outside_policy(self.modal) {
            default_outside_policy(modal)
        } else {
            self.outside_interaction_policy
        };
        let layer = DismissLayerView { modal, ..self.dismiss_layer };
        PopoverLifecycleView {
            modal,
            focus_scope: FocusScopeView { trap_focus: modal, loop_focus: modal, ..self.focus_scope },
            dismiss_layer: if self.outside_interaction_policy == default_outside_policy(self.modal) {
                layer_with_policy(layer, outside)
            } else {
                layer
            },
            outside_interaction_policy: outside,
            scroll_lock_policy: if self.scroll_lock_policy == default_scroll_policy(self.modal) {
                default_scroll_policy(modal)
            } else {
                self.scroll_lock_policy
            },
            ..self
        }
    }

    pub open spec fn after_open_focus_policy(self, policy: OpenFocusPolicyView) -> PopoverLifecycleView {
        PopoverLifecycleView {
            focus_scope: scope_with_open_policy(self.focus_scope, policy),
            open_focus_policy: policy,
            ..self
        }
    }

    pub open spec fn after_close_focus_policy(
        self,
        policy: CloseFocusPolicyView,
    ) -> PopoverLifecycleView {
        PopoverLifecycleView {
            focus_scope: FocusScopeView {
                restore_target: restore_target_for(policy, self.default_restore_focus_target),
                ..self.focus_scope
            },
            close_focus_policy: policy,
            ..self
        }
    }

    pub open spec fn after_outside_policy(
        self,
        policy: PopoverOutsideInteractionPolicy,
    ) -> PopoverLifecycleView {
        PopoverLifecycleView {
            dismiss_layer: layer_with_policy(self.dismiss_layer, policy),
            outside_interaction_policy: policy,
            ..self
        }
    }
}

/// The ordered open-focus policy that `set_autofocus_target(target)` chooses.
pub open spec fn open_policy_for_target(target: Option<Seq<char>>) -> OpenFocusPolicyView {
    match target {
        Some(t) => OpenFocusPolicyView::Target(t),
        None => OpenFocusPolicyView::FirstFocusable,
    }
}

/// The close-focus policy that `capture_restore_target(target)` chooses.
pub open spec fn close_policy_for_target(target: Option<Seq<char>>) -> CloseFocusPolicyView {
    match target {
        Some(t) => CloseFocusPolicyView::Target(t),
        None => CloseFocusPolicyView::NoFocus,
    }
}

/// Focus, dismissal, presence and placement settings of one popover.
#[derive(Clone, Debug, PartialEq)]
pub struct PopoverLifecycle {
    pub(crate) portal_host: PortalHost,
    pub(crate) presence: Presence,
    pub(crate) focus_scope: FocusScope,
    pub(crate) focus_guards: FocusGuards,
    pub(crate) dismiss_layer: DismissLayer,
    pub(crate) floating: FloatingLayer,
    pub(crate) modal: bool,
    pub(crate) open_focus_policy: PopoverOpenFocusPolicy,
    pub(crate) close_focus_policy: PopoverCloseFocusPolicy,
    pub(crate) default_restore_focus_target: String,
    pub(crate) scroll_lock_policy: PopoverScrollLockPolicy,
    pub(crate) outside_interaction_policy: PopoverOutsideInteractionPolicy,
}

impl View for PopoverLifecycle {
    type V = PopoverLifecycleView;

    open(crate) spec fn view(&self) -> PopoverLifecycleView {
        PopoverLifecycleView {
            portal_host: self.portal_host@,
            presence: self.presence,
            focus_scope: self.focus_scope@,
            focus_guard_before: self.focus_guards.before@,
            focus_guard_after: self.focus_guards.after@,
            dismiss_layer: self.dismiss_layer@,
            floating: self.floating,
            modal: self.modal,
            open_focus_policy: self.open_focus_policy@,
            close_focus_policy: self.close_focus_policy@,
            default_restore_focus_target: self.default_restore_focus_target@,
            scroll_lock_policy: self.scroll_lock_policy,
            outside_interaction_policy: self.outside_interaction_policy,
        }
    }
}

impl PopoverLifecycle {
    /// The lifecycle a popover with `relationships` starts from.
    pub open spec fn spec_initial(
        relationships: PopoverRelationshipsView,
        open: bool,
        modal: bool,
    ) -> PopoverLifecycleView {
        let outside = default_outside_policy(modal);
        PopoverLifecycleView {
            portal_host: PortalHostView::Default,
            presence: Presence { desired_present: open, retain_mount: true },
            focus_scope: FocusScopeView {
                container: relationships.content_id,
                trap_focus: modal,
                loop_focus: modal,
                autofocus_enabled: true,
                autofocus_target: None,
                restore_target: Some(relationships.trigger_id),
                branches: Seq::empty(),
            },
            focus_guard_before: qualified(relationships.scope, "focus-guard-before"@),
            focus_guard_after: qualified(relationships.scope, "focus-guard-after"@),
            dismiss_layer: DismissLayerView {
                id: relationships.content_id,
                modal,
                pointer_down_outside_dismiss: outside.spec_pointer_down_outside().spec_dismisses(),
                focus_outside_dismiss: outside.spec_focus_outside().spec_dismisses(),
                branches: Seq::empty(),
            },
            floating: FloatingLayer {
                side: PlacementSide::Bottom,
                align: PlacementAlign::Center,
                namespace: POPOVER_GEOMETRY_NAMESPACE,
            },
            modal,
            open_focus_policy: OpenFocusPolicyView::FirstFocusable,
            close_focus_policy: CloseFocusPolicyView::Trigger,
            default_restore_focus_target: relationships.trigger_id,
            scroll_lock_policy: default_scroll_policy(modal),
            outside_interaction_policy: outside,
        }
    }

    pub fn new(relationships: &PopoverRelationships, open: bool) -> (l: Self)
        ensures
            l@ == Self::spec_initial(relationships@, open, false),
            l@.wf(),
    {
        Self::new_with_modal(relationships, open, false)
    }

    pub fn new_modal(relationships: &PopoverRelationships, open: bool) -> (l: Self)
        ensures
            l@ == Self::spec_initial(relationships@, open, true),
            l@.wf(),
    {
        Self::new_with_modal(relationships, open, true)
    }

    fn new_with_modal(relationships: &PopoverRelationships, open: bool, modal: bool) -> (l: Self)
        ensures
            l@ == Self::spec_initial(relationships@, open, modal),
            l@.wf(),
    {
        let outside_interaction_policy = Self::default_outside_interaction_policy(modal);
        let scroll_lock_policy = Self::default_scroll_lock_policy(modal);
        let default_restore_focus_target = relationships.trigger_id().to_owned();
        let mut focus_scope = FocusScope::new(relationships.content_id().to_owned())
            .with_trap_focus(modal)
            .with_loop_focus(modal);
        focus_scope.capture_restore_target(Some(default_restore_focus_target.clone()));
        focus_scope.set_autofocus_enabled(true);

        let mut dismiss_layer = DismissLayer::new(relationships.content_id().to_owned()).with_modal(
            modal,
        );
        dismiss_layer.set_pointer_down_outside_dismiss(
            outside_interaction_policy.pointer_down_outside().dismisses(),
        );
        dismiss_layer.set_focus_outside_dismiss(
            outside_interaction_policy.focus_outside().dismisses(),
        );
        let floating = FloatingLayer::new(PlacementSide::Bottom).with_namespace(
            POPOVER_GEOMETRY_NAMESPACE,
        );
        let focus_guards = FocusGuards::new(
            relationships.scope().qualify("focus-guard-before"),
            relationships.scope().qualify("focus-guard-after"),
        );
        proof {
            reveal_strlit("popover");
        }
        PopoverLifecycle {
            portal_host: PortalHost::default_host(),
            presence: Presence::new(open).with_retained_mount(true),
            focus_scope,
            focus_guards,
            dismiss_layer,
            floating,
            modal,
            open_focus_policy: PopoverOpenFocusPolicy::FirstFocusable,
            close_focus_policy: PopoverCloseFocusPolicy::Trigger,
            default_restore_focus_target,
            scroll_lock_policy,
            outside_interaction_policy,
        }
    }

    pub fn with_portal_host(self, portal_host: PortalHost) -> (l: Self)
        ensures
            l@ == (PopoverLifecycleView { portal_host: portal_host@, ..self@ }),
    {
        PopoverLifecycle { portal_host, ..self }
    }

    /// Takes over `floating`, keeping the popover's geometry namespace.
    pub fn with_floating(self, floating: FloatingLayer) -> (l: Self)
        ensures
            l@ == (PopoverLifecycleView {
                floating: FloatingLayer { namespace: POPOVER_GEOMETRY_NAMESPACE, ..floating },
                ..self@
            }),
            self@.wf() ==> l@.wf(),
    {
        proof {
            reveal_strlit("popover");
        }
        PopoverLifecycle { floating: floating.with_namespace(POPOVER_GEOMETRY_NAMESPACE), ..self }
    }

    pub fn portal_host(&self) -> (h: &PortalHost)
        ensures
            h@ == self@.portal_host,
    {
        &self.portal_host
    }

    pub fn presence(&self) -> (p: &Presence)
        ensures
            *p == self@.presence,
    {
        &self.presence
    }

    pub fn presence_mut(&mut self) -> (p: &mut Presence)
        ensures
            *p == old(self)@.presence,
            final(self)@ == (PopoverLifecycleView { presence: *final(p), ..old(self)@ }),
    {
        &mut self.presence
    }

    pub fn focus_scope(&self) -> (s: &FocusScope)
        ensures
            s@ == self@.focus_scope,
    {
        &self.focus_scope
    }

    pub fn focus_scope_mut(&mut self) -> (s: &mut FocusScope)
        ensures
            s@ == old(self)@.focus_scope,
            final(self)@ == (PopoverLifecycleView { focus_scope: final(s)@, ..old(self)@ }),
    {
        &mut self.focus_scope
    }

    pub fn focus_guards(&self) -> (g: &FocusGuards)
        ensures
            g.before@ == self@.focus_guard_before,
            g.after@ == self@.focus_guard_after,
    {
        &self.focus_guards
    }

    pub fn focus_guards_mut(&mut self) -> (g: &mut FocusGuards)
        ensures
            g.before@ == old(self)@.focus_guard_before,
            g.after@ == old(self)@.focus_guard_after,
            final(self)@ == (PopoverLifecycleView {
                focus_guard_before: final(g).before@,
                focus_guard_after: final(g).after@,
                ..old(self)@
            }),
    {
        &mut self.focus_guards
    }

    pub fn dismiss_layer(&self) -> (d: &DismissLayer)
        ensures
            d@ == self@.dismiss_layer,
    {
        &self.dismiss_layer
    }

    pub fn dismiss_layer_mut(&mut self) -> (d: &mut DismissLayer)
        ensures
            d@ == old(self)@.dismiss_layer,
            final(self)@ == (PopoverLifecycleView { dismiss_layer: final(d)@, ..old(self)@ }),
    {
        &mut self.dismiss_layer
    }

    pub fn floating(&self) -> (f: &FloatingLayer)
        ensures
            *f == self@.floating,
    {
        &self.floating
    }

    pub fn is_modal(&self) -> (b: bool)
        ensures
            b == self@.modal,
    {
        self.modal
    }

    pub fn open_focus_policy(&self) -> (p: &PopoverOpenFocusPolicy)
        ensures
            p@ == self@.open_focus_policy,
    {
        &self.open_focus_policy
    }

    pub fn close_focus_policy(&self) -> (p: &PopoverCloseFocusPolicy)
        ensures
            p@ == self@.close_focus_policy,
    {
        &self.close_focus_policy
    }

    pub fn scroll_lock_policy(&self) -> (p: &PopoverScrollLockPolicy)
        ensures
            *p == self@.scroll_lock_policy,
    {
        &self.scroll_lock_policy
    }

    pub fn outside_interaction_policy(&self) -> (p: &PopoverOutsideInteractionPolicy)
        ensures
            *p == self@.outside_interaction_policy,
    {
        &self.outside_interaction_policy
    }

    /// Opening focuses `target` when given, the first focusable element otherwise.
    pub fn set_autofocus_target(&mut self, target: Option<String>)
        ensures
            final(self)@ == old(self)@.after_open_focus_policy(
                open_policy_for_target(opt_text_view(target)),
            ),
            old(self)@.wf() ==> final(self)@.wf(),
    {
        match target {
            Some(target) => self.set_open_focus_policy(PopoverOpenFocusPolicy::Target(target)),
            None => self.set_open_focus_policy(PopoverOpenFocusPolicy::FirstFocusable),
        }
    }

    /// Closing restores focus to `target` when given, and nowhere otherwise.
    pub fn capture_restore_target(&mut self, target: Option<String>)
        ensures
            final(self)@ == old(self)@.after_close_focus_policy(
                close_policy_for_target(opt_text_view(target)),
            ),
            old(self)@.wf() ==> final(self)@.wf(),
    {
        match target {
            Some(target) => self.set_close_focus_policy(PopoverCloseFocusPolicy::Target(target)),
            None => self.set_close_focus_policy(PopoverCloseFocusPolicy::NoFocus),
        }
    }

    /// Registers `branch` with both the focus scope and the dismiss layer, so that it counts as
    /// inside the popover. Returns whether it was new to both.
    pub fn register_branch(&mut self, branch: String) -> (added: bool)
        ensures
            final(self)@ == (PopoverLifecycleView {
                focus_scope: FocusScopeView {
                    branches: if old(self)@.focus_scope.branches.contains(branch@) {
                        old(self)@.focus_scope.branches
                    } else {
                        old(self)@.focus_scope.branches.push(branch@)
                    },
                    ..old(self)@.focus_scope
                },
                dismiss_layer: DismissLayerView {
                    branches: if old(self)@.dismiss_layer.branches.contains(branch@) {
                        old(self)@.dismiss_layer.branches
                    } else {
                        old(self)@.dismiss_layer.branches.push(branch@)
                    },
                    ..old(self)@.dismiss_layer
                },
                ..old(self)@
            }),
            added == (!old(self)@.focus_scope.branches.contains(branch@)
                && !old(self)@.dismiss_layer.branches.contains(branch@)),
            old(self)@.wf() ==> final(self)@.wf() && added == !old(self)@.focus_scope.branches.contains(branch@),
    {
        let focus_registered = self.focus_scope.register_branch(branch.clone());
        let dismiss_registered = self.dismiss_layer.register_branch(branch);
        focus_registered && dismiss_registered
    }

    pub(crate) fn set_modal(&mut self, modal: bool)
        ensures
            final(self)@ == old(self)@.after_set_modal(modal),
            old(self)@.wf() ==> final(self)@.wf(),
    {
        let previous_modal = self.modal;
        self.modal = modal;
        self.focus_scope.set_trap_focus(modal);
        self.focus_scope.set_loop_focus(modal);
        self.dismiss_layer.set_modal(modal);

        if self.outside_interaction_policy == Self::default_outside_interaction_policy(previous_modal) {
            self.set_outside_interaction_policy(Self::default_outside_interaction_policy(modal));
        }
        if self.scroll_lock_policy == Self::default_scroll_lock_policy(previous_modal) {
            self.scroll_lock_policy = Self::default_scroll_lock_policy(modal);
        }
    }

    pub(crate) fn set_open_focus_policy(&mut self, policy: PopoverOpenFocusPolicy)
        ensures
            final(self)@ == old(self)@.after_open_focus_policy(policy@),
            old(self)@.wf() ==> final(self)@.wf(),
    {
        match &policy {
            PopoverOpenFocusPolicy::FirstFocusable => {
                self.focus_scope.set_autofocus_enabled(true);
                self.focus_scope.set_autofocus_target(None);
            },
            PopoverOpenFocusPolicy::Target(target) => {
                self.focus_scope.set_autofocus_enabled(true);
                self.focus_scope.set_autofocus_target(Some(target.clone()));
            },
            PopoverOpenFocusPolicy::Suppress => {
                self.focus_scope.set_autofocus_enabled(false);
                self.focus_scope.set_autofocus_target(None);
            },
        }
        self.open_focus_policy = policy;
    }

    pub(crate) fn set_close_focus_policy(&mut self, policy: PopoverCloseFocusPolicy)
        ensures
            final(self)@ == old(self)@.after_close_focus_policy(policy@),
            old(self)@.wf() ==> final(self)@.wf(),
    {
        match &policy {
            PopoverCloseFocusPolicy::Trigger => self.focus_scope.capture_restore_target(
                Some(self.default_restore_focus_target.clone()),
            ),
            PopoverCloseFocusPolicy::Target(target) => self.focus_scope.capture_restore_target(
                Some(target.clone()),
            ),
            PopoverCloseFocusPolicy::NoFocus => self.focus_scope.capture_restore_target(None),
        }
        self.close_focus_policy = policy;
    }

    pub(crate) fn set_scroll_lock_policy(&mut self, policy: PopoverScrollLockPolicy)
        ensures
            final(self)@ == (PopoverLifecycleView { scroll_lock_policy: policy, ..old(self)@ }),
            old(self)@.wf() ==> final(self)@.wf(),
    {
        self.scroll_lock_policy = policy;
    }

    pub(crate) fn set_outside_interaction_policy(&mut self, policy: PopoverOutsideInteractionPolicy)
        ensures
            final(self)@ == old(self)@.after_outside_policy(policy),
            old(self)@.wf() ==> final(self)@.wf(),
    {
        self.dismiss_layer.set_pointer_down_outside_dismiss(
            policy.pointer_down_outside().dismisses(),
        );
        self.dismiss_layer.set_focus_outside_dismiss(policy.focus_outside().dismisses());
        self.outside_interaction_policy = policy;
    }

    fn default_outside_interaction_policy(modal: bool) -> (p: PopoverOutsideInteractionPolicy)
        ensures
            p == default_outside_policy(modal),
    {
        if modal {
            PopoverOutsideInteractionPolicy::modal_default()
        } else {
            PopoverOutsideInteractionPolicy::non_modal_default()
        }
    }

    fn default_scroll_lock_policy(modal: bool) -> (p: PopoverScrollLockPolicy)
        ensures
            p == default_scroll_policy(modal),
    {
        if modal {
            PopoverScrollLockPolicy::enabled()
        } else {
            PopoverScrollLockPolicy::disabled()
        }
    }
}

/// The model of a popover.
pub struct PopoverView {
    pub relationships: PopoverRelationshipsView,
    pub lifecycle: PopoverLifecycleView,
    pub open: bool,
}

impl PopoverView {
    /// The lifecycle is consistent and addresses the parts named by the relationships.
    pub open spec fn wf(self) -> bool {
        &&& self.relationships.wf()
        &&& self.lifecycle.wf()
        &&& self.lifecycle.focus_scope.container == self.relationships.content_id
        &&& self.lifecycle.dismiss_layer.id == self.relationships.content_id
        &&& self.lifecycle.default_restore_focus_target == self.relationships.trigger_id
        &&& self.lifecycle.focus_guard_before == qualified(
            self.relationships.scope,
            "focus-guard-before"@,
        )
        &&& self.lifecycle.focus_guard_after == qualified(
            self.relationships.scope,
            "focus-guard-after"@,
        )
    }

    pub open spec fn data_state(self) -> DataState {
        DataState::spec_from_open(self.open)
    }
}

/// A headless popover: its ids, its lifecycle settings and whether it is open.
#[derive(Clone, Debug, PartialEq)]
pub struct Popover {
    pub(crate) relationships: PopoverRelationships,
    pub(crate) lifecycle: PopoverLifecycle,
    pub(crate) open: bool,
}

impl View for Popover {
    type V = PopoverView;

    open(crate) spec fn view(&self) -> PopoverView {
        PopoverView {
            relationships: self.relationships@,
            lifecycle: self.lifecycle@,
            open: self.open,
        }
    }
}

impl Popover {
    pub fn new(scope: ScopeHandle, open: bool) -> (p: Self)
        ensures
            p@.relationships.scope == scope@,
            p@.lifecycle == PopoverLifecycle::spec_initial(p@.relationships, open, false),
            p@.open == open,
            p@.wf(),
    {
        Self::new_with_modal(scope, open, false)
    }

    pub fn new_modal(scope: ScopeHandle, open: bool) -> (p: Self)
        ensures
            p@.relationships.scope == scope@,
            p@.lifecycle == PopoverLifecycle::spec_initial(p@.relationships, open, true),
            p@.open == open,
            p@.wf(),
    {
        Self::new_with_modal(scope, open, true)
    }

    fn new_with_modal(scope: ScopeHandle, open: bool, modal: bool) -> (p: Self)
        ensures
            p@.relationships.scope == scope@,
            p@.lifecycle == PopoverLifecycle::spec_initial(p@.relationships, open, modal),
            p@.open == open,
            p@.wf(),
    {
        let relationships = PopoverRelationships::new(scope);
        let lifecycle = if modal {
            PopoverLifecycle::new_modal(&relationships, open)
        } else {
            PopoverLifecycle::new(&relationships, open)
        };
        Popover { relationships, lifecycle, open }
    }

    pub fn parts() -> (parts: &'static [PopoverPart])
        ensures
            parts@ == seq![
                PopoverPart::Root,
                PopoverPart::Trigger,
                PopoverPart::Portal,
                PopoverPart::Content,
                PopoverPart::Arrow,
                PopoverPart::Anchor,
                PopoverPart::Close,
            ],
    {
        &POPOVER_PARTS
    }

    pub fn is_open(&self) -> (b: bool)
        ensures
            b == self@.open,
    {
        self.open
    }

    pub fn data_state(&self) -> (s: DataState)
        ensures
            s == self@.data_state(),
    {
        if self.open {
            DataState::Open
        } else {
            DataState::Closed
        }
    }

    pub fn relationships(&self) -> (r: &PopoverRelationships)
        ensures
            r@ == self@.relationships,
    {
        &self.relationships
    }

    pub fn lifecycle(&self) -> (l: &PopoverLifecycle)
        ensures
            l@ == self@.lifecycle,
    {
        &self.lifecycle
    }

    pub fn lifecycle_mut(&mut self) -> (l: &mut PopoverLifecycle)
        ensures
            l@ == old(self)@.lifecycle,
            final(self)@ == (PopoverView { lifecycle: final(l)@, ..old(self)@ }),
    {
        &mut self.lifecycle
    }

    pub fn with_portal_host(self, portal_host: PortalHost) -> (p: Self)
        ensures
            p@ == (PopoverView {
                lifecycle: PopoverLifecycleView { portal_host: portal_host@, ..self@.lifecycle },
                ..self@
            }),
            self@.wf() ==> p@.wf(),
    {
        Popover { lifecycle: self.lifecycle.with_portal_host(portal_host), ..self }
    }

    pub fn with_floating(self, floating: FloatingLayer) -> (p: Self)
        ensures
            p@ == (PopoverView {
                lifecycle: PopoverLifecycleView {
                    floating: FloatingLayer { namespace: POPOVER_GEOMETRY_NAMESPACE, ..floating },
                    ..self@.lifecycle
                },
                ..self@
            }),
            self@.wf() ==> p@.wf(),
    {
        Popover { lifecycle: self.lifecycle.with_floating(floating), ..self }
    }

    pub fn with_modal(self, modal: bool) -> (p: Self)
        ensures
            p@ == (PopoverView { lifecycle: self@.lifecycle.after_set_modal(modal), ..self@ }),
            self@.wf() ==> p@.wf(),
    {
        let mut p = self;
        p.lifecycle.set_modal(modal);
        p
    }

    pub fn with_open_focus_policy(self, policy: PopoverOpenFocusPolicy) -> (p: Self)
        ensures
            p@ == (PopoverView {
                lifecycle: self@.lifecycle.after_open_focus_policy(policy@),
                ..self@
            }),
            self@.wf() ==> p@.wf(),
    {
        let mut p = self;
        p.lifecycle.set_open_focus_policy(policy);
        p
    }

    pub fn with_close_focus_policy(self, policy: PopoverCloseFocusPolicy) -> (p: Self)
        ensures
            p@ == (PopoverView {
                lifecycle: self@.lifecycle.after_close_focus_policy(policy@),
                ..self@
            }),
            self@.wf() ==> p@.wf(),
    {
        let mut p = self;
        p.lifecycle.set_close_focus_policy(policy);
        p
    }

    pub fn with_scroll_lock_policy(self, policy: PopoverScrollLockPolicy) -> (p: Self)
        ensures
            p@ == (PopoverView {
                lifecycle: PopoverLifecycleView { scroll_lock_policy: policy, ..self@.lifecycle },
                ..self@
            }),
            self@.wf() ==> p@.wf(),
    {
        let mut p = self;
        p.lifecycle.set_scroll_lock_policy(policy);
        p
    }

    pub fn with_outside_interaction_policy(self, policy: PopoverOutsideInteractionPolicy) -> (p:
        Self)
        ensures
            p@ == (PopoverView { lifecycle: self@.lifecycle.after_outside_policy(policy), ..self@ }),
            self@.wf() ==> p@.wf(),
    {
        let mut p = self;
        p.lifecycle.set_outside_interaction_policy(policy);
        p
    }

    pub fn root(&self) -> (a: PopoverRootAttributes)
        ensures
            a@.id == self@.relationships.root_id,
            a@.data_state == self@.data_state(),
    {
        PopoverRootAttributes {
            id: self.relationships.root_id().to_owned(),
            data_state: self.data_state(),
        }
    }

    /// The trigger controls the content, reports the open state and toggles on activation.
    pub fn trigger(&self) -> (a: PopoverTriggerAttributes)
        ensures
            a@.id == self@.relationships.trigger_id,
            a@.aria_controls == self@.relationships.content_id,
            a@.aria_expanded == self@.open,
            a@.data_state == self@.data_state(),
            a@.open_request == PopoverStateRequest::Toggle,
    {
        PopoverTriggerAttributes {
            id: self.relationships.trigger_id().to_owned(),
            aria_controls: self.relationships.content_id().to_owned(),
            aria_expanded: self.is_open(),
            data_state: self.data_state(),
            open_request: PopoverStateRequest::Toggle,
        }
    }

    pub fn anchor(&self) -> (a: PopoverAnchorAttributes)
        ensures
            a@.id == self@.relationships.anchor_id,
    {
        PopoverAnchorAttributes { id: self.relationships.anchor_id().to_owned() }
    }

    pub fn portal(&self) -> (a: PopoverPortalAttributes)
        ensures
            a@ == self@.lifecycle.portal_host,
    {
        PopoverPortalAttributes { host: self.lifecycle.portal_host().clone() }
    }

    /// The content is a dialog, modal exactly when its dismiss layer is.
    pub fn content(&self) -> (a: PopoverContentAttributes)
        ensures
            a@.id == self@.relationships.content_id,
            a@.role == "dialog"@,
            a@.aria_modal == self@.lifecycle.dismiss_layer.modal,
            a@.data_state == self@.data_state(),
            a@.data_side == self@.lifecycle.floating.side.spec_text(),
            a@.data_align == self@.lifecycle.floating.align.spec_text(),
    {
        proof {
            reveal_strlit("dialog");
        }
        PopoverContentAttributes {
            id: self.relationships.content_id().to_owned(),
            role: "dialog",
            aria_modal: self.lifecycle.dismiss_layer().is_modal(),
            data_state: self.data_state(),
            data_side: self.lifecycle.floating().data_side(),
            data_align: self.lifecycle.floating().data_align(),
        }
    }

    pub fn arrow(&self) -> (a: PopoverArrowAttributes)
        ensures
            a@.id == self@.relationships.arrow_id,
            a@.data_state == self@.data_state(),
            a@.data_side == self@.lifecycle.floating.side.spec_text(),
            a@.data_align == self@.lifecycle.floating.align.spec_text(),
    {
        PopoverArrowAttributes {
            id: self.relationships.arrow_id().to_owned(),
            data_state: self.data_state(),
            data_side: self.lifecycle.floating().data_side(),
            data_align: self.lifecycle.floating().data_align(),
        }
    }

    /// The close part requests closing.
    pub fn close(&self) -> (a: PopoverCloseAttributes)
        ensures
            a@.id == self@.relationships.close_id,
            a@.data_state == self@.data_state(),
            a@.close_request == PopoverStateRequest::Close,
    {
        PopoverCloseAttributes {
            id: self.relationships.close_id().to_owned(),
            data_state: self.data_state(),
            close_request: PopoverStateRequest::Close,
        }
    }
}

/// Switching the mode and switching it back gives back a consistent lifecycle whose policies
/// were the defaults of its mode.
pub proof fn lemma_set_modal_round_trip(lifecycle: PopoverLifecycleView, modal: bool)
    requires
        lifecycle.wf(),
        lifecycle.outside_interaction_policy == default_outside_policy(lifecycle.modal),
        lifecycle.scroll_lock_policy == default_scroll_policy(lifecycle.modal),
    ensures
        lifecycle.after_set_modal(modal).after_set_modal(lifecycle.modal) == lifecycle,
{
    let once = lifecycle.after_set_modal(modal);
    let twice = once.after_set_modal(lifecycle.modal);
    assert(twice.focus_scope == lifecycle.focus_scope);
    assert(twice.dismiss_layer == lifecycle.dismiss_layer);
}

/// A policy set explicitly survives a change of mode.
pub proof fn lemma_set_modal_keeps_custom_policies(lifecycle: PopoverLifecycleView, modal: bool)
    requires
        lifecycle.outside_interaction_policy != default_outside_policy(lifecycle.modal),
        lifecycle.scroll_lock_policy != default_scroll_policy(lifecycle.modal),
    ensures
        lifecycle.after_set_modal(modal).outside_interaction_policy
            == lifecycle.outside_interaction_policy,
        lifecycle.after_set_modal(modal).scroll_lock_policy == lifecycle.scroll_lock_policy,
        lifecycle.after_set_modal(modal).modal == modal,
{
}

} // verus!
