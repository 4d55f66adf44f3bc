use vstd::prelude::*;

verus! {

pub const SELECT_PARTS: [SelectPart; 16] = [
    SelectPart::Root,
    SelectPart::Trigger,
    SelectPart::Value,
    SelectPart::Icon,
    SelectPart::Portal,
    SelectPart::Content,
    SelectPart::ContentStatic,
    SelectPart::Viewport,
    SelectPart::Group,
    SelectPart::Label,
    SelectPart::Item,
    SelectPart::ItemText,
    SelectPart::ItemIndicator,
    SelectPart::Separator,
    SelectPart::Arrow,
    SelectPart::HiddenInput,
];

/// The parts a select is made of.
#[derive(Clone, Copy, Debug, PartialEq, Eq, Hash, Structural)]
pub enum SelectPart {
    Root,
    Trigger,
    Value,
    Icon,
    Portal,
    Content,
    ContentStatic,
    Viewport,
    Group,
    Label,
    Item,
    ItemText,
    ItemIndicator,
    Separator,
    Arrow,
    HiddenInput,
}

impl SelectPart {
    pub open spec fn spec_text(self) -> Seq<char> {
        match self {
            SelectPart::Root => "root"@,
            SelectPart::Trigger => "trigger"@,
            SelectPart::Value => "value"@,
            SelectPart::Icon => "icon"@,
            SelectPart::Portal => "portal"@,
            SelectPart::Content => "content"@,
            SelectPart::ContentStatic => "content-static"@,
            SelectPart::Viewport => "viewport"@,
            SelectPart::Group => "group"@,
            SelectPart::Label => "label"@,
            SelectPart::Item => "item"@,
            SelectPart::ItemText => "item-text"@,
            SelectPart::ItemIndicator => "item-indicator"@,
            SelectPart::Separator => "separator"@,
            SelectPart::Arrow => "arrow"@,
            SelectPart::HiddenInput => "hidden-input"@,
        }
    }

    pub fn as_str(&self) -> (s: &'static str)
        ensures
            s@ == self.spec_text(),
    {
        match self {
            SelectPart::Root => "root",
            SelectPart::Trigger => "trigger",
            SelectPart::Value => "value",
            SelectPart::Icon => "icon",
            SelectPart::Portal => "portal",
            SelectPart::Content => "content",
            SelectPart::ContentStatic => "content-static",
            SelectPart::Viewport => "viewport",
            SelectPart::Group => "group",
            SelectPart::Label => "label",
            SelectPart::Item => "item",
            SelectPart::ItemText => "item-text",
            SelectPart::ItemIndicator => "item-indicator",
            SelectPart::Separator => "separator",
            SelectPart::Arrow => "arrow",
            SelectPart::HiddenInput => "hidden-input",
        }
    }
}

/// Whether one value or several can be chosen.
#[derive(Clone, Copy, Debug, PartialEq, Eq, Structural)]
pub enum SelectMode {
    /// One value; choosing it again clears it when `allow_deselect` is set.
    Single { allow_deselect: bool },
    Multiple,
}

impl Default for SelectMode {
    fn default() -> (m: Self)
        ensures
            m == (SelectMode::Single { allow_deselect: false }),
    {
        SelectMode::Single { allow_deselect: false }
    }
}

impl SelectMode {
    pub fn single() -> (m: Self)
        ensures
            m == (SelectMode::Single { allow_deselect: false }),
    {
        SelectMode::Single { allow_deselect: false }
    }

    pub fn single_with_deselect(allow_deselect: bool) -> (m: Self)
        ensures
            m == (SelectMode::Single { allow_deselect }),
    {
        SelectMode::Single { allow_deselect }
    }

    pub fn multiple() -> (m: Self)
        ensures
            m == SelectMode::Multiple,
    {
        SelectMode::Multiple
    }

    pub fn is_multiple(&self) -> (b: bool)
        ensures
            b == (*self == SelectMode::Multiple),
    {
        match self {
            SelectMode::Multiple => true,
            SelectMode::Single { .. } => false,
        }
    }

    /// A chosen value can be chosen away: in multiple mode always, in single mode when allowed.
    pub open spec fn spec_allow_deselect(self) -> bool {
        match self {
            SelectMode::Single { allow_deselect } => allow_deselect,
            SelectMode::Multiple => true,
        }
    }

    pub fn allow_deselect(&self) -> (b: bool)
        ensures
            b == self.spec_allow_deselect(),
    {
        match self {
            SelectMode::Single { allow_deselect } => *allow_deselect,
            SelectMode::Multiple => true,
        }
    }
}

/// One option of a select.
#[derive(Debug, PartialEq, Eq)]
pub struct SelectItemData {
    pub value: String,
    pub text: String,
    pub disabled: bool,
}

impl Clone for SelectItemData {
    fn clone(&self) -> (r: Self)
        ensures
            r == *self,
    {
        SelectItemData { value: self.value.clone(), text: self.text.clone(), disabled: self.disabled }
    }
}

impl SelectItemData {
    pub fn new(value: String, text: String, disabled: bool) -> (i: Self)
        ensures
            i == (SelectItemData { value, text, disabled }),
    {
        SelectItemData { value, text, disabled }
    }
}

} // verus!
