use vstd::prelude::*;
use crate::foundation::shared::{qualified, ScopeHandle};

verus! {

/// The model of the ids that tie the popover parts together.
pub struct PopoverRelationshipsView {
    pub scope: Seq<char>,
    pub root_id: Seq<char>,
    pub trigger_id: Seq<char>,
    pub anchor_id: Seq<char>,
    pub content_id: Seq<char>,
    pub arrow_id: Seq<char>,
    pub close_id: Seq<char>,
}

impl PopoverRelationshipsView {
    /// Every id is derived from the scope token.
    pub open spec fn wf(self) -> bool {
        &&& self.root_id == self.scope
        &&& self.trigger_id == qualified(self.scope, "trigger"@)
        &&& self.anchor_id == qualified(self.scope, "anchor"@)
        &&& self.content_id == qualified(self.scope, "content"@)
        &&& self.arrow_id == qualified(self.scope, "arrow"@)
        &&& self.close_id == qualified(self.scope, "close"@)
    }
}

/// The ids of the parts of one popover.
#[derive(Debug, PartialEq, Eq)]
pub struct PopoverRelationships {
    pub(crate) scope: ScopeHandle,
    pub(crate) root_id: String,
    pub(crate) trigger_id: String,
    pub(crate) anchor_id: String,
    pub(crate) content_id: String,
    pub(crate) arrow_id: String,
    pub(crate) close_id: String,
}

impl View for PopoverRelationships {
    type V = PopoverRelationshipsView;

    open(crate) spec fn view(&self) -> PopoverRelationshipsView {
        PopoverRelationshipsView {
            scope: self.scope@,
            root_id: self.root_id@,
            trigger_id: self.trigger_id@,
            anchor_id: self.anchor_id@,
            content_id: self.content_id@,
            arrow_id: self.arrow_id@,
            close_id: self.close_id@,
        }
    }
}

impl Clone for PopoverRelationships {
    fn clone(&self) -> (r: Self)
        ensures
            r@ == self@,
    {
        PopoverRelationships {
            scope: self.scope.clone(),
            root_id: self.root_id.clone(),
            trigger_id: self.trigger_id.clone(),
            anchor_id: self.anchor_id.clone(),
            content_id: self.content_id.clone(),
            arrow_id: self.arrow_id.clone(),
            close_id: self.close_id.clone(),
        }
    }
}

impl PopoverRelationships {
    pub fn new(scope: ScopeHandle) -> (r: Self)
        ensures
            r@.scope == scope@,
            r@.wf(),
    {
        proof {
            reveal_strlit("trigger");
            reveal_strlit("anchor");
            reveal_strlit("content");
            reveal_strlit("arrow");
            reveal_strlit("close");
        }
        PopoverRelationships {
            root_id: scope.token(),
            trigger_id: scope.qualify("trigger"),
            anchor_id: scope.qualify("anchor"),
            content_id: scope.qualify("content"),
            arrow_id: scope.qualify("arrow"),
            close_id: scope.qualify("close"),
            scope,
        }
    }

    pub fn scope(&self) -> (s: &ScopeHandle)
        ensures
            s@ == self@.scope,
    {
        &self.scope
    }

    pub fn root_id(&self) -> (s: &str)
        ensures
            s@ == self@.root_id,
    {
        self.root_id.as_str()
    }

    pub fn trigger_id(&self) -> (s: &str)
        ensures
            s@ == self@.trigger_id,
    {
        self.trigger_id.as_str()
    }

    pub fn anchor_id(&self) -> (s: &str)
        ensures
            s@ == self@.anchor_id,
    {
        self.anchor_id.as_str()
    }

    pub fn content_id(&self) -> (s: &str)
        ensures
            s@ == self@.content_id,
    {
        self.content_id.as_str()
    }

    pub fn arrow_id(&self) -> (s: &str)
        ensures
            s@ == self@.arrow_id,
    {
        self.arrow_id.as_str()
    }

    pub fn close_id(&self) -> (s: &str)
        ensures
            s@ == self@.close_id,
    {
        self.close_id.as_str()
    }
}

} // verus!
