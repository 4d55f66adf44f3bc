use vstd::prelude::*;
use crate::foundation::{
    overlay::{
        DismissLayer, DismissLayerView, FloatingLayer, PlacementAlign, PlacementSide, PortalHost,
        PortalHostView, Presence,
    },
    shared::ScopeHandle,
    state::DataState,
};
use super::{
    attrs::{
        TooltipArrowAttributes, TooltipContentAttributes, TooltipPortalAttributes,
        TooltipRootAttributes, TooltipTriggerAttributes,
    },
    relationships::{TooltipRelationships, TooltipRelationshipsView},
    types::{TooltipPart, TooltipStateRequest, TOOLTIP_GEOMETRY_NAMESPACE, TOOLTIP_PARTS},
};

verus! {

/// The model of the timing and interaction settings shared by the tooltips of a provider.
pub struct TooltipProviderView {
    pub id: Seq<char>,
    pub delay_duration_ms: u64,
    pub skip_delay_duration_ms: u64,
    pub disable_hoverable_content: bool,
    pub close_on_trigger_click: bool,
    pub ignore_non_keyboard_focus: bool,
}

/// Timing and interaction settings shared by the tooltips under one provider.
#[derive(Debug, PartialEq, Eq)]
pub struct TooltipProvider {
    pub(crate) id: String,
    pub(crate) delay_duration_ms: u64,
    pub(crate) skip_delay_duration_ms: u64,
    pub(crate) disable_hoverable_content: bool,
    pub(crate) close_on_trigger_click: bool,
    pub(crate) ignore_non_keyboard_focus: bool,
}

impl View for TooltipProvider {
    type V = TooltipProviderView;

    open(crate) spec fn view(&self) -> TooltipProviderView {
        TooltipProviderView {
            id: self.id@,
            delay_duration_ms: self.delay_duration_ms,
            skip_delay_duration_ms: self.skip_delay_duration_ms,
            disable_hoverable_content: self.disable_hoverable_content,
            close_on_trigger_click: self.close_on_trigger_click,
            ignore_non_keyboard_focus: self.ignore_non_keyboard_focus,
        }
    }
}

impl Clone for TooltipProvider {
    fn clone(&self) -> (r: Self)
        ensures
            r@ == self@,
    {
        TooltipProvider {
            id: self.id.clone(),
            delay_duration_ms: self.delay_duration_ms,
            skip_delay_duration_ms: self.skip_delay_duration_ms,
            disable_hoverable_content: self.disable_hoverable_content,
            close_on_trigger_click: self.close_on_trigger_click,
            ignore_non_keyboard_focus: self.ignore_non_keyboard_focus,
        }
    }
}

impl TooltipProvider {
    pub const DEFAULT_DELAY_DURATION_MS: u64 = 700;

    pub const DEFAULT_SKIP_DELAY_DURATION_MS: u64 = 300;

    /// A provider with a 700 ms open delay, a 300 ms skip-delay window, hoverable content,
    /// closing on trigger click and opening on any focus.
    pub fn new(scope: ScopeHandle) -> (p: Self)
        ensures
            p@ == (TooltipProviderView {
                id: scope@,
                delay_duration_ms: 700,
                skip_delay_duration_ms: 300,
                disable_hoverable_content: false,
                close_on_trigger_click: true,
                ignore_non_keyboard_focus: false,
            }),
    {
        TooltipProvider {
            id: scope.token(),
            delay_duration_ms: Self::DEFAULT_DELAY_DURATION_MS,
            skip_delay_duration_ms: Self::DEFAULT_SKIP_DELAY_DURATION_MS,
            disable_hoverable_content: false,
            close_on_trigger_click: true,
            ignore_non_keyboard_focus: false,
        }
    }

    pub fn with_delay_duration_ms(self, delay_duration_ms: u64) -> (p: Self)
        ensures
            p@ == (TooltipProviderView { delay_duration_ms, ..self@ }),
    {
        TooltipProvider { delay_duration_ms, ..self }
    }

    pub fn with_skip_delay_duration_ms(self, skip_delay_duration_ms: u64) -> (p: Self)
        ensures
            p@ == (TooltipProviderView { skip_delay_duration_ms, ..self@ }),
    {
        TooltipProvider { skip_delay_duration_ms, ..self }
    }

    pub fn with_disable_hoverable_content(self, disable_hoverable_content: bool) -> (p: Self)
        ensures
            p@ == (TooltipProviderView { disable_hoverable_content, ..self@ }),
    {
        TooltipProvider { disable_hoverable_content, ..self }
    }

    pub fn with_close_on_trigger_click(self, close_on_trigger_click: bool) -> (p: Self)
        ensures
            p@ == (TooltipProviderView { close_on_trigger_click, ..self@ }),
    {
        TooltipProvider { close_on_trigger_click, ..self }
    }

    pub fn with_ignore_non_keyboard_focus(self, ignore_non_keyboard_focus: bool) -> (p: Self)
        ensures
            p@ == (TooltipProviderView { ignore_non_keyboard_focus, ..self@ }),
    {
        TooltipProvider { ignore_non_keyboard_focus, ..self }
    }

    pub fn id(&self) -> (s: &str)
        ensures
            s@ == self@.id,
    {
        self.id.as_str()
    }

    pub fn delay_duration_ms(&self) -> (d: u64)
        ensures
            d == self@.delay_duration_ms,
    {
        self.delay_duration_ms
    }

    pub fn skip_delay_duration_ms(&self) -> (d: u64)
        ensures
            d == self@.skip_delay_duration_ms,
    {
        self.skip_delay_duration_ms
    }

    pub fn disable_hoverable_content(&self) -> (b: bool)
        ensures
            b == self@.disable_hoverable_content,
    {
        self.disable_hoverable_content
    }

    pub fn close_on_trigger_click(&self) -> (b: bool)
        ensures
            b == self@.close_on_trigger_click,
    {
        self.close_on_trigger_click
    }

    pub fn ignore_non_keyboard_focus(&self) -> (b: bool)
        ensures
            b == self@.ignore_non_keyboard_focus,
    {
        self.ignore_non_keyboard_focus
    }
}

/// The model of a tooltip lifecycle.
pub struct TooltipLifecycleView {
    pub portal_host: PortalHostView,
    pub presence: Presence,
    pub dismiss_layer: DismissLayerView,
    pub floating: FloatingLayer,
    pub provider: Option<TooltipProviderView>,
    pub content_autofocus_suppressed: bool,
}

/// Presence, dismissal and placement settings of one tooltip.
#[derive(Clone, Debug, PartialEq)]
pub struct TooltipLifecycle {
    pub(crate) portal_host: PortalHost,
    pub(crate) presence: Presence,
    pub(crate) dismiss_layer: DismissLayer,
    pub(crate) floating: FloatingLayer,
    pub(crate) provider: Option<TooltipProvider>,
    pub(crate) content_autofocus_suppressed: bool,
}

pub open spec fn opt_provider_view(p: Option<TooltipProvider>) -> Option<TooltipProviderView> {
    match p {
        Some(p) => Some(p@),
        None => None,
    }
}

impl View for TooltipLifecycle {
    type V = TooltipLifecycleView;

    open(crate) spec fn view(&self) -> TooltipLifecycleView {
        TooltipLifecycleView {
            portal_host: self.portal_host@,
            presence: self.presence,
            dismiss_layer: self.dismiss_layer@,
            floating: self.floating,
            provider: opt_provider_view(self.provider),
            content_autofocus_suppressed: self.content_autofocus_suppressed,
        }
    }
}

impl TooltipLifecycle {
    /// A tooltip placed on top of its trigger, mounted while it animates out, dismissable
    /// against its content, without a provider and never taking focus.
    pub fn new(relationships: &TooltipRelationships, open: bool) -> (l: Self)
        ensures
            l@ == (TooltipLifecycleView {
                portal_host: PortalHostView::Default,
                presence: Presence { desired_present: open, retain_mount: true },
                dismiss_layer: DismissLayerView {
                    id: relationships@.content_id,
                    modal: false,
                    pointer_down_outside_dismiss: true,
                    focus_outside_dismiss: true,
                    branches: Seq::empty(),
                },
                floating: FloatingLayer {
                    side: PlacementSide::Top,
                    align: PlacementAlign::Center,
                    namespace: TOOLTIP_GEOMETRY_NAMESPACE,
                },
                provider: None,
                content_autofocus_suppressed: true,
            }),
    {
        TooltipLifecycle {
            portal_host: PortalHost::default_host(),
            presence: Presence::new(open).with_retained_mount(true),
            dismiss_layer: DismissLayer::new(relationships.content_id().to_owned()),
            floating: FloatingLayer::new(PlacementSide::Top).with_namespace(
                TOOLTIP_GEOMETRY_NAMESPACE,
            ),
            provider: None,
            content_autofocus_suppressed: true,
        }
    }

    pub fn with_portal_host(self, portal_host: PortalHost) -> (l: Self)
        ensures
            l@ == (TooltipLifecycleView { portal_host: portal_host@, ..self@ }),
    {
        TooltipLifecycle { portal_host, ..self }
    }

    pub fn with_floating(self, floating: FloatingLayer) -> (l: Self)
        ensures
            l@ == (TooltipLifecycleView {
                floating: FloatingLayer { namespace: TOOLTIP_GEOMETRY_NAMESPACE, ..floating },
                ..self@
            }),
    {
        TooltipLifecycle { floating: floating.with_namespace(TOOLTIP_GEOMETRY_NAMESPACE), ..self }
    }

    pub fn with_provider(self, provider: TooltipProvider) -> (l: Self)
        ensures
            l@ == (TooltipLifecycleView { provider: Some(provider@), ..self@ }),
    {
        TooltipLifecycle { provider: Some(provider), ..self }
    }

    pub fn portal_host(&self) -> (h: &PortalHost)
        ensures
            h@ == self@.portal_host,
    {
        &self.portal_host
    }

    pub fn presence(&self) -> (p: &Presence)
        ensures
            *p == self@.presence,
    {
        &self.presence
    }

    pub fn presence_mut(&mut self) -> (p: &mut Presence)
        ensures
            *p == old(self)@.presence,
            final(self)@ == (TooltipLifecycleView { presence: *final(p), ..old(self)@ }),
    {
        &mut self.presence
    }

    pub fn dismiss_layer(&self) -> (d: &DismissLayer)
        ensures
            d@ == self@.dismiss_layer,
    {
        &self.dismiss_layer
    }

    pub fn dismiss_layer_mut(&mut self) -> (d: &mut DismissLayer)
        ensures
            d@ == old(self)@.dismiss_layer,
            final(self)@ == (TooltipLifecycleView { dismiss_layer: final(d)@, ..old(self)@ }),
    {
        &mut self.dismiss_layer
    }

    /// Records `branch` as part of the tooltip's dismiss layer; false when it already was.
    pub fn register_branch(&mut self, branch: String) -> (added: bool)
        ensures
            added == !old(self)@.dismiss_layer.branches.contains(branch@),
            final(self)@ == (TooltipLifecycleView {
                dismiss_layer: DismissLayerView {
                    branches: if added {
                        old(self)@.dismiss_layer.branches.push(branch@)
                    } else {
                        old(self)@.dismiss_layer.branches
                    },
                    ..old(self)@.dismiss_layer
                },
                ..old(self)@
            }),
    {
        self.dismiss_layer.register_branch(branch)
    }

    pub fn floating(&self) -> (f: &FloatingLayer)
        ensures
            *f == self@.floating,
    {
        &self.floating
    }

    pub fn provider(&self) -> (p: Option<&TooltipProvider>)
        ensures
            match p {
                Some(p) => self@.provider == Some(p@),
                None => self@.provider is None,
            },
    {
        self.provider.as_ref()
    }

    pub fn content_autofocus_suppressed(&self) -> (b: bool)
        ensures
            b == self@.content_autofocus_suppressed,
    {
        self.content_autofocus_suppressed
    }
}

/// The model of a tooltip.
pub struct TooltipView {
    pub relationships: TooltipRelationshipsView,
    pub lifecycle: TooltipLifecycleView,
    pub open: bool,
}

impl TooltipView {
    pub open spec fn data_state(self) -> DataState {
        DataState::spec_from_open(self.open)
    }
}

/// A headless tooltip: its ids, its lifecycle settings and whether it is shown.
#[derive(Clone, Debug, PartialEq)]
pub struct Tooltip {
    pub(crate) relationships: TooltipRelationships,
    pub(crate) lifecycle: TooltipLifecycle,
    pub(crate) open: bool,
}

impl View for Tooltip {
    type V = TooltipView;

    open(crate) spec fn view(&self) -> TooltipView {
        TooltipView {
            relationships: self.relationships@,
            lifecycle: self.lifecycle@,
            open: self.open,
        }
    }
}

impl Tooltip {
    pub fn new(scope: ScopeHandle, open: bool) -> (t: Self)
        ensures
            t@.relationships.scope == scope@,
            t@.relationships.wf(),
            t@.lifecycle.dismiss_layer.id == t@.relationships.content_id,
            t@.lifecycle.provider is None,
            t@.lifecycle.presence == (Presence { desired_present: open, retain_mount: true }),
            t@.lifecycle.floating.side == PlacementSide::Top,
            t@.lifecycle.content_autofocus_suppressed,
            t@.open == open,
    {
        let relationships = TooltipRelationships::new(scope);
        let lifecycle = TooltipLifecycle::new(&relationships, open);
        Tooltip { relationships, lifecycle, open }
    }

    pub fn parts() -> (parts: &'static [TooltipPart])
        ensures
            parts@ == seq![
                TooltipPart::Root,
                TooltipPart::Trigger,
                TooltipPart::Portal,
                TooltipPart::Content,
                TooltipPart::Arrow,
                TooltipPart::Provider,
            ],
    {
        &TOOLTIP_PARTS
    }

    pub fn is_open(&self) -> (b: bool)
        ensures
            b == self@.open,
    {
        self.open
    }

    pub fn data_state(&self) -> (s: DataState)
        ensures
            s == self@.data_state(),
    {
        if self.open {
            DataState::Open
        } else {
            DataState::Closed
        }
    }

    pub fn relationships(&self) -> (r: &TooltipRelationships)
        ensures
            r@ == self@.relationships,
    {
        &self.relationships
    }

    pub fn lifecycle(&self) -> (l: &TooltipLifecycle)
        ensures
            l@ == self@.lifecycle,
    {
        &self.lifecycle
    }

    pub fn lifecycle_mut(&mut self) -> (l: &mut TooltipLifecycle)
        ensures
            l@ == old(self)@.lifecycle,
            final(self)@ == (TooltipView { lifecycle: final(l)@, ..old(self)@ }),
    {
        &mut self.lifecycle
    }

    pub fn provider(&self) -> (p: Option<&TooltipProvider>)
        ensures
            match p {
                Some(p) => self@.lifecycle.provider == Some(p@),
                None => self@.lifecycle.provider is None,
            },
    {
        self.lifecycle.provider()
    }

    pub fn with_portal_host(self, portal_host: PortalHost) -> (t: Self)
        ensures
            t@ == (TooltipView {
                lifecycle: TooltipLifecycleView { portal_host: portal_host@, ..self@.lifecycle },
                ..self@
            }),
    {
        Tooltip { lifecycle: self.lifecycle.with_portal_host(portal_host), ..self }
    }

    pub fn with_floating(self, floating: FloatingLayer) -> (t: Self)
        ensures
            t@ == (TooltipView {
                lifecycle: TooltipLifecycleView {
                    floating: FloatingLayer { namespace: TOOLTIP_GEOMETRY_NAMESPACE, ..floating },
                    ..self@.lifecycle
                },
                ..self@
            }),
    {
        Tooltip { lifecycle: self.lifecycle.with_floating(floating), ..self }
    }

    pub fn with_provider(self, provider: TooltipProvider) -> (t: Self)
        ensures
            t@ == (TooltipView {
                lifecycle: TooltipLifecycleView { provider: Some(provider@), ..self@.lifecycle },
                ..self@
            }),
    {
        Tooltip { lifecycle: self.lifecycle.with_provider(provider), ..self }
    }

    pub fn root(&self) -> (a: TooltipRootAttributes)
        ensures
            a@.id == self@.relationships.root_id,
            a@.data_state == self@.data_state(),
    {
        TooltipRootAttributes {
            id: self.relationships.root_id().to_owned(),
            data_state: self.data_state(),
        }
    }

    /// The trigger is described by the content only while the tooltip is shown.
    pub fn trigger(&self) -> (a: TooltipTriggerAttributes)
        ensures
            a@.id == self@.relationships.trigger_id,
            a@.aria_describedby == (if self@.open {
                Some(self@.relationships.content_id)
            } else {
                None
            }),
            a@.provider_id == (match self@.lifecycle.provider {
                Some(p) => Some(p.id),
                None => None,
            }),
            a@.data_state == self@.data_state(),
            a@.open_request == TooltipStateRequest::Open,
            a@.close_request == TooltipStateRequest::Close,
    {
        TooltipTriggerAttributes {
            id: self.relationships.trigger_id().to_owned(),
            aria_describedby: if self.is_open() {
                Some(self.relationships.content_id().to_owned())
            } else {
                None
            },
            provider_id: match self.provider() {
                Some(provider) => Some(provider.id().to_owned()),
                None => None,
            },
            data_state: self.data_state(),
            open_request: TooltipStateRequest::Open,
            close_request: TooltipStateRequest::Close,
        }
    }

    pub fn portal(&self) -> (a: TooltipPortalAttributes)
        ensures
            a@ == self@.lifecycle.portal_host,
    {
        TooltipPortalAttributes { host: self.lifecycle.portal_host().clone() }
    }

    pub fn content(&self) -> (a: TooltipContentAttributes)
        ensures
            a@.id == self@.relationships.content_id,
            a@.role == "tooltip"@,
            a@.data_state == self@.data_state(),
            a@.data_side == self@.lifecycle.floating.side.spec_text(),
            a@.data_align == self@.lifecycle.floating.align.spec_text(),
            a@.autofocus_suppressed == self@.lifecycle.content_autofocus_suppressed,
    {
        proof {
            reveal_strlit("tooltip");
        }
        TooltipContentAttributes {
            id: self.relationships.content_id().to_owned(),
            role: "tooltip",
            data_state: self.data_state(),
            data_side: self.lifecycle.floating().data_side(),
            data_align: self.lifecycle.floating().data_align(),
            autofocus_suppressed: self.lifecycle.content_autofocus_suppressed(),
        }
    }

    pub fn arrow(&self) -> (a: TooltipArrowAttributes)
        ensures
            a@.id == self@.relationships.arrow_id,
            a@.data_state == self@.data_state(),
            a@.data_side == self@.lifecycle.floating.side.spec_text(),
            a@.data_align == self@.lifecycle.floating.align.spec_text(),
    {
        TooltipArrowAttributes {
            id: self.relationships.arrow_id().to_owned(),
            data_state: self.data_state(),
            data_side: self.lifecycle.floating().data_side(),
            data_align: self.lifecycle.floating().data_align(),
        }
    }
}

} // verus!
