use vstd::prelude::*;
use crate::foundation::shared::{qualified, ScopeHandle};

verus! {

/// The model of the tooltip ids.
pub struct TooltipRelationshipsView {
    pub scope: Seq<char>,
    pub root_id: Seq<char>,
    pub trigger_id: Seq<char>,
    pub content_id: Seq<char>,
    pub arrow_id: Seq<char>,
}

impl TooltipRelationshipsView {
    pub open spec fn wf(self) -> bool {
        &&& self.root_id == self.scope
        &&& self.trigger_id == qualified(self.scope, "trigger"@)
        &&& self.content_id == qualified(self.scope, "content"@)
        &&& self.arrow_id == qualified(self.scope, "arrow"@)
    }
}

/// The ids of the parts of one tooltip.
#[derive(Debug, PartialEq, Eq)]
pub struct TooltipRelationships {
    pub(crate) scope: ScopeHandle,
    pub(crate) root_id: String,
    pub(crate) trigger_id: String,
    pub(crate) content_id: String,
    pub(crate) arrow_id: String,
}

impl View for TooltipRelationships {
    type V = TooltipRelationshipsView;

    open(crate) spec fn view(&self) -> TooltipRelationshipsView {
        TooltipRelationshipsView {
            scope: self.scope@,
            root_id: self.root_id@,
            trigger_id: self.trigger_id@,
            content_id: self.content_id@,
            arrow_id: self.arrow_id@,
        }
    }
}

impl Clone for TooltipRelationships {
    fn clone(&self) -> (r: Self)
        ensures
            r@ == self@,
    {
        TooltipRelationships {
            scope: self.scope.clone(),
            root_id: self.root_id.clone(),
            trigger_id: self.trigger_id.clone(),
            content_id: self.content_id.clone(),
            arrow_id: self.arrow_id.clone(),
        }
    }
}

impl TooltipRelationships {
    pub fn new(scope: ScopeHandle) -> (r: Self)
        ensures
            r@.scope == scope@,
            r@.wf(),
    {
        proof {
            reveal_strlit("trigger");
            reveal_strlit("content");
            reveal_strlit("arrow");
        }
        TooltipRelationships {
            root_id: scope.token(),
            trigger_id: scope.qualify("trigger"),
            content_id: scope.qualify("content"),
            arrow_id: scope.qualify("arrow"),
            scope,
        }
    }

    pub fn scope(&self) -> (s: &ScopeHandle)
        ensures
            s@ == self@.scope,
    {
        &self.scope
    }

    pub fn root_id(&self) -> (s: &str)
        ensures
            s@ == self@.root_id,
    {
        self.root_id.as_str()
    }

    pub fn trigger_id(&self) -> (s: &str)
        ensures
            s@ == self@.trigger_id,
    {
        self.trigger_id.as_str()
    }

    pub fn content_id(&self) -> (s: &str)
        ensures
            s@ == self@.content_id,
    {
        self.content_id.as_str()
    }

    pub fn arrow_id(&self) -> (s: &str)
        ensures
            s@ == self@.arrow_id,
    {
        self.arrow_id.as_str()
    }
}

} // verus!
