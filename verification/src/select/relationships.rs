use vstd::prelude::*;
use crate::foundation::shared::{qualified, ScopeHandle};

verus! {

/// The model of the select ids.
pub struct SelectRelationshipsView {
    pub scope: Seq<char>,
    pub root_id: Seq<char>,
    pub trigger_id: Seq<char>,
    pub content_id: Seq<char>,
}

impl SelectRelationshipsView {
    pub open spec fn wf(self) -> bool {
        &&& self.root_id == self.scope
        &&& self.trigger_id == qualified(self.scope, "trigger"@)
        &&& self.content_id == qualified(self.scope, "content"@)
    }

    pub open spec fn spec_item_id(self, value: Seq<char>) -> Seq<char> {
        qualified(self.scope, "item-"@ + value)
    }

    pub open spec fn spec_group_id(self, key: Seq<char>) -> Seq<char> {
        qualified(self.scope, "group-"@ + key)
    }

    pub open spec fn spec_label_id(self, key: Seq<char>) -> Seq<char> {
        qualified(self.scope, "label-"@ + key)
    }
}

/// The ids of the parts of one select.
#[derive(Debug, PartialEq, Eq)]
pub struct SelectRelationships {
    pub(crate) scope: ScopeHandle,
    pub(crate) root_id: String,
    pub(crate) trigger_id: String,
    pub(crate) content_id: String,
}

impl View for SelectRelationships {
    type V = SelectRelationshipsView;

    open(crate) spec fn view(&self) -> SelectRelationshipsView {
        SelectRelationshipsView {
            scope: self.scope@,
            root_id: self.root_id@,
            trigger_id: self.trigger_id@,
            content_id: self.content_id@,
        }
    }
}

impl Clone for SelectRelationships {
    fn clone(&self) -> (r: Self)
        ensures
            r@ == self@,
    {
        SelectRelationships {
            scope: self.scope.clone(),
            root_id: self.root_id.clone(),
            trigger_id: self.trigger_id.clone(),
            content_id: self.content_id.clone(),
        }
    }
}

fn prefixed(scope: &ScopeHandle, prefix: &str, key: &str) -> (s: String)
    ensures
        s@ == qualified(scope@, prefix@ + key@),
{
    let part = prefix.to_owned().concat(key);
    scope.qualify(part.as_str())
}

impl SelectRelationships {
    pub fn new(scope: ScopeHandle) -> (r: Self)
        ensures
            r@.scope == scope@,
            r@.wf(),
    {
        proof {
            reveal_strlit("trigger");
            reveal_strlit("content");
        }
        SelectRelationships {
            root_id: scope.token(),
            trigger_id: scope.qualify("trigger"),
            content_id: scope.qualify("content"),
            scope,
        }
    }

    pub fn scope(&self) -> (s: &ScopeHandle)
        ensures
            s@ == self@.scope,
    {
        &self.scope
    }

    pub fn root_id(&self) -> (s: &str)
        ensures
            s@ == self@.root_id,
    {
        self.root_id.as_str()
    }

    pub fn trigger_id(&self) -> (s: &str)
        ensures
            s@ == self@.trigger_id,
    {
        self.trigger_id.as_str()
    }

    pub fn content_id(&self) -> (s: &str)
        ensures
            s@ == self@.content_id,
    {
        self.content_id.as_str()
    }

    pub fn item_id(&self, value: &str) -> (s: String)
        ensures
            s@ == self@.spec_item_id(value@),
    {
        proof {
            reveal_strlit("item-");
        }
        prefixed(&self.scope, "item-", value)
    }

    pub fn group_id(&self, group_key: &str) -> (s: String)
        ensures
            s@ == self@.spec_group_id(group_key@),
    {
        proof {
            reveal_strlit("group-");
        }
        prefixed(&self.scope, "group-", group_key)
    }

    pub fn label_id(&self, group_key: &str) -> (s: String)
        ensures
            s@ == self@.spec_label_id(group_key@),
    {
        proof {
            reveal_strlit("label-");
        }
        prefixed(&self.scope, "label-", group_key)
    }
}

} // verus!
