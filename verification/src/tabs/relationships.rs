use vstd::prelude::*;
use crate::foundation::shared::{qualified, ScopeHandle};

verus! {

/// The model of the tabs ids.
pub struct TabsRelationshipsView {
    pub scope: Seq<char>,
    pub root_id: Seq<char>,
    pub list_id: Seq<char>,
}

impl TabsRelationshipsView {
    pub open spec fn wf(self) -> bool {
        self.root_id == self.scope && self.list_id == qualified(self.scope, "list"@)
    }

    /// The id of the trigger of tab `value`.
    pub open spec fn spec_trigger_id(self, value: Seq<char>) -> Seq<char> {
        qualified(self.scope, "trigger-"@ + value)
    }

    /// The id of the panel of tab `value`.
    pub open spec fn spec_content_id(self, value: Seq<char>) -> Seq<char> {
        qualified(self.scope, "content-"@ + value)
    }
}

/// The ids of the parts of one tabs widget.
#[derive(Debug, PartialEq, Eq)]
pub struct TabsRelationships {
    pub(crate) scope: ScopeHandle,
    pub(crate) root_id: String,
    pub(crate) list_id: String,
}

impl View for TabsRelationships {
    type V = TabsRelationshipsView;

    open(crate) spec fn view(&self) -> TabsRelationshipsView {
        TabsRelationshipsView { scope: self.scope@, root_id: self.root_id@, list_id: self.list_id@ }
    }
}

impl Clone for TabsRelationships {
    fn clone(&self) -> (r: Self)
        ensures
            r@ == self@,
    {
        TabsRelationships {
            scope: self.scope.clone(),
            root_id: self.root_id.clone(),
            list_id: self.list_id.clone(),
        }
    }
}

impl TabsRelationships {
    pub fn new(scope: ScopeHandle) -> (r: Self)
        ensures
            r@.scope == scope@,
            r@.wf(),
    {
        proof {
            reveal_strlit("list");
        }
        TabsRelationships { root_id: scope.token(), list_id: scope.qualify("list"), scope }
    }

    pub fn scope(&self) -> (s: &ScopeHandle)
        ensures
            s@ == self@.scope,
    {
        &self.scope
    }

    pub fn root_id(&self) -> (s: &str)
        ensures
            s@ == self@.root_id,
    {
        self.root_id.as_str()
    }

    pub fn list_id(&self) -> (s: &str)
        ensures
            s@ == self@.list_id,
    {
        self.list_id.as_str()
    }

    pub fn trigger_id(&self, value: &str) -> (s: String)
        ensures
            s@ == self@.spec_trigger_id(value@),
    {
        proof {
            reveal_strlit("trigger-");
        }
        let part = "trigger-".to_owned().concat(value);
        self.scope.qualify(part.as_str())
    }

    pub fn content_id(&self, value: &str) -> (s: String)
        ensures
            s@ == self@.spec_content_id(value@),
    {
        proof {
            reveal_strlit("content-");
        }
        let part = "content-".to_owned().concat(value);
        self.scope.qualify(part.as_str())
    }
}

} // verus!
