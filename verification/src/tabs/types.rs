use vstd::prelude::*;
use vstd::std_specs::convert::FromSpecImpl;
use crate::foundation::roving::{Direction, Orientation};

verus! {

pub const TABS_PARTS: [TabsPart; 4] = [
    TabsPart::Root,
    TabsPart::List,
    TabsPart::Trigger,
    TabsPart::Content,
];

/// The parts a tabs widget is made of.
#[derive(Clone, Copy, Debug, PartialEq, Eq, Hash, Structural)]
pub enum TabsPart {
    Root,
    List,
    Trigger,
    Content,
}

impl TabsPart {
    pub open spec fn spec_text(self) -> Seq<char> {
        match self {
            TabsPart::Root => "root"@,
            TabsPart::List => "list"@,
            TabsPart::Trigger => "trigger"@,
            TabsPart::Content => "content"@,
        }
    }

    pub fn as_str(&self) -> (s: &'static str)
        ensures
            s@ == self.spec_text(),
    {
        match self {
            TabsPart::Root => "root",
            TabsPart::List => "list",
            TabsPart::Trigger => "trigger",
            TabsPart::Content => "content",
        }
    }
}

/// The axis along which the triggers are laid out.
#[derive(Clone, Copy, Debug, PartialEq, Eq, Hash, Structural)]
pub enum TabsOrientation {
    Horizontal,
    Vertical,
}

impl Default for TabsOrientation {
    fn default() -> (o: Self)
        ensures
            o == TabsOrientation::Horizontal,
    {
        TabsOrientation::Horizontal
    }
}

impl TabsOrientation {
    pub open spec fn spec_text(self) -> Seq<char> {
        match self {
            TabsOrientation::Horizontal => "horizontal"@,
            TabsOrientation::Vertical => "vertical"@,
        }
    }

    pub fn as_str(&self) -> (s: &'static str)
        ensures
            s@ == self.spec_text(),
    {
        match self {
            TabsOrientation::Horizontal => "horizontal",
            TabsOrientation::Vertical => "vertical",
        }
    }

    pub fn is_horizontal(&self) -> (b: bool)
        ensures
            b == (*self == TabsOrientation::Horizontal),
    {
        match self {
            TabsOrientation::Horizontal => true,
            TabsOrientation::Vertical => false,
        }
    }

    pub fn is_vertical(&self) -> (b: bool)
        ensures
            b == (*self == TabsOrientation::Vertical),
    {
        match self {
            TabsOrientation::Horizontal => false,
            TabsOrientation::Vertical => true,
        }
    }
}

impl From<TabsOrientation> for Orientation {
    fn from(orientation: TabsOrientation) -> (o: Orientation) {
        match orientation {
            TabsOrientation::Horizontal => Orientation::Horizontal,
            TabsOrientation::Vertical => Orientation::Vertical,
        }
    }
}

impl FromSpecImpl<TabsOrientation> for Orientation {
    open spec fn obeys_from_spec() -> bool {
        true
    }

    open spec fn from_spec(orientation: TabsOrientation) -> Orientation {
        match orientation {
            TabsOrientation::Horizontal => Orientation::Horizontal,
            TabsOrientation::Vertical => Orientation::Vertical,
        }
    }
}

/// The reading direction of the trigger list.
#[derive(Clone, Copy, Debug, PartialEq, Eq, Hash, Structural)]
pub enum TabsDirection {
    Ltr,
    Rtl,
}

impl Default for TabsDirection {
    fn default() -> (d: Self)
        ensures
            d == TabsDirection::Ltr,
    {
        TabsDirection::Ltr
    }
}

impl TabsDirection {
    pub open spec fn spec_text(self) -> Seq<char> {
        match self {
            TabsDirection::Ltr => "ltr"@,
            TabsDirection::Rtl => "rtl"@,
        }
    }

    pub fn as_str(&self) -> (s: &'static str)
        ensures
            s@ == self.spec_text(),
    {
        match self {
            TabsDirection::Ltr => "ltr",
            TabsDirection::Rtl => "rtl",
        }
    }

    pub fn is_rtl(&self) -> (b: bool)
        ensures
            b == (*self == TabsDirection::Rtl),
    {
        match self {
            TabsDirection::Ltr => false,
            TabsDirection::Rtl => true,
        }
    }
}

impl From<TabsDirection> for Direction {
    fn from(direction: TabsDirection) -> (d: Direction) {
        match direction {
            TabsDirection::Ltr => Direction::Ltr,
            TabsDirection::Rtl => Direction::Rtl,
        }
    }
}

impl FromSpecImpl<TabsDirection> for Direction {
    open spec fn obeys_from_spec() -> bool {
        true
    }

    open spec fn from_spec(direction: TabsDirection) -> Direction {
        match direction {
            TabsDirection::Ltr => Direction::Ltr,
            TabsDirection::Rtl => Direction::Rtl,
        }
    }
}

/// Whether moving focus to a trigger also selects it.
#[derive(Clone, Copy, Debug, PartialEq, Eq, Hash, Structural)]
pub enum TabsActivationMode {
    Automatic,
    Manual,
}

impl Default for TabsActivationMode {
    fn default() -> (m: Self)
        ensures
            m == TabsActivationMode::Automatic,
    {
        TabsActivationMode::Automatic
    }
}

impl TabsActivationMode {
    pub fn is_automatic(&self) -> (b: bool)
        ensures
            b == (*self == TabsActivationMode::Automatic),
    {
        match self {
            TabsActivationMode::Automatic => true,
            TabsActivationMode::Manual => false,
        }
    }

    pub fn is_manual(&self) -> (b: bool)
        ensures
            b == (*self == TabsActivationMode::Manual),
    {
        match self {
            TabsActivationMode::Automatic => false,
            TabsActivationMode::Manual => true,
        }
    }
}

/// A trigger as the runtime registered it.
#[derive(Debug, PartialEq, Eq)]
pub struct TriggerRegistration {
    pub value: String,
    pub disabled: bool,
}

impl Clone for TriggerRegistration {
    fn clone(&self) -> (r: Self)
        ensures
            r == *self,
    {
        TriggerRegistration { value: self.value.clone(), disabled: self.disabled }
    }
}

} // verus!
