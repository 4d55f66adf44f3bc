use vstd::prelude::*;
use crate::foundation::shared::{text_eq, texts_view};

verus! {

/// Layout axis of a collection.
#[derive(Clone, Copy, Debug, PartialEq, Eq, Hash, Structural)]
pub enum Orientation {
    Horizontal,
    Vertical,
}

/// Reading direction.
#[derive(Clone, Copy, Debug, PartialEq, Eq, Hash, Structural)]
pub enum Direction {
    Ltr,
    Rtl,
}

/// Keys that move focus within a roving collection.
#[derive(Clone, Copy, Debug, PartialEq, Eq, Hash, Structural)]
pub enum RovingFocusKey {
    ArrowLeft,
    ArrowRight,
    ArrowUp,
    ArrowDown,
    Home,
    End,
}

/// Where a key asks focus to go.
#[derive(Clone, Copy, Debug, PartialEq, Eq, Structural)]
pub enum FocusIntent {
    First,
    Last,
    Prev,
    Next,
}

/// The intent of `key`: arrows across the axis are ignored, and right-to-left reading swaps
/// the horizontal arrows.
pub open spec fn spec_intent(key: RovingFocusKey, orientation: Orientation, dir: Direction) -> Option<
    FocusIntent,
> {
    match key {
        RovingFocusKey::Home => Some(FocusIntent::First),
        RovingFocusKey::End => Some(FocusIntent::Last),
        RovingFocusKey::ArrowLeft => if orientation == Orientation::Horizontal {
            Some(if dir == Direction::Rtl { FocusIntent::Next } else { FocusIntent::Prev })
        } else {
            None
        },
        RovingFocusKey::ArrowRight => if orientation == Orientation::Horizontal {
            Some(if dir == Direction::Rtl { FocusIntent::Prev } else { FocusIntent::Next })
        } else {
            None
        },
        RovingFocusKey::ArrowUp => if orientation == Orientation::Vertical {
            Some(FocusIntent::Prev)
        } else {
            None
        },
        RovingFocusKey::ArrowDown => if orientation == Orientation::Vertical {
            Some(FocusIntent::Next)
        } else {
            None
        },
    }
}

/// The first position of `x` in `s`, or -1.
pub open spec fn first_index(s: Seq<Seq<char>>, x: Seq<char>) -> int
    decreases s.len(),
{
    if s.len() == 0 {
        -1
    } else if first_index(s.drop_last(), x) >= 0 {
        first_index(s.drop_last(), x)
    } else if s.last() == x {
        s.len() - 1
    } else {
        -1
    }
}

/// The item focus moves to among the focusable `items` from `current`. An item not among them
/// counts as sitting before the first.
pub open spec fn spec_target(
    items: Seq<Seq<char>>,
    current: Seq<char>,
    intent: FocusIntent,
    looping: bool,
) -> Option<Seq<char>> {
    let ci = first_index(items, current);
    if items.len() == 0 {
        None
    } else {
        match intent {
            FocusIntent::First => Some(items[0]),
            FocusIntent::Last => Some(items.last()),
            FocusIntent::Next => if ci < 0 {
                Some(items[0])
            } else if ci + 1 < items.len() {
                Some(items[ci + 1])
            } else if looping {
                Some(items[0])
            } else {
                None
            },
            FocusIntent::Prev => if ci < 0 {
                Some(items.last())
            } else if ci > 0 {
                Some(items[ci - 1])
            } else if looping {
                Some(items.last())
            } else {
                None
            },
        }
    }
}

/// The first position of `x` in `s` holds `x` and no earlier one does; -1 means that `x`
/// does not occur.
pub proof fn lemma_first_index_bounds(s: Seq<Seq<char>>, x: Seq<char>)
    ensures
        -1 <= first_index(s, x) < s.len(),
        first_index(s, x) >= 0 ==> s[first_index(s, x)] == x,
        first_index(s, x) >= 0 ==> forall|j: int| 0 <= j < first_index(s, x) ==> s[j] != x,
        first_index(s, x) < 0 ==> forall|j: int| 0 <= j < s.len() ==> s[j] != x,
    decreases s.len(),
{
    if s.len() > 0 {
        let init = s.drop_last();
        lemma_first_index_bounds(init, x);
        assert forall|j: int| 0 <= j < init.len() implies init[j] == s[j] by {}
        if first_index(init, x) < 0 && s.last() != x {
            assert forall|j: int| 0 <= j < s.len() implies s[j] != x by {
                if j < init.len() {
                    assert(init[j] == s[j]);
                }
            }
        }
        if first_index(init, x) < 0 && s.last() == x {
            assert forall|j: int| 0 <= j < s.len() - 1 implies s[j] != x by {
                assert(init[j] == s[j]);
            }
        }
    }
}

/// A move always lands on one of the focusable items.
pub proof fn lemma_target_is_item(
    items: Seq<Seq<char>>,
    current: Seq<char>,
    intent: FocusIntent,
    looping: bool,
)
    ensures
        spec_target(items, current, intent, looping) matches Some(t) ==> items.contains(t),
{
    lemma_first_index_bounds(items, current);
    let ci = first_index(items, current);
    if items.len() > 0 {
        assert(items.contains(items[0]));
        assert(items.contains(items[items.len() - 1]));
        if 0 <= ci && ci + 1 < items.len() {
            assert(items.contains(items[ci + 1]));
        }
        if 0 < ci {
            assert(items.contains(items[ci - 1]));
        }
    }
}

/// Arrow keys move one item: ArrowDown (vertical) and the forward horizontal arrow (right when
/// reading left to right, left when reading right to left) move to the item after `current`,
/// ArrowUp and the backward horizontal arrow to the item before it, wrapping only when looping;
/// arrows across the orientation move nothing.
pub proof fn lemma_arrows_move_one_item(
    items: Seq<Seq<char>>,
    current: Seq<char>,
    orientation: Orientation,
    dir: Direction,
    looping: bool,
)
    requires
        0 <= first_index(items, current),
    ensures
        ({
            let ci = first_index(items, current);
            let forward = if ci + 1 < items.len() {
                Some(items[ci + 1])
            } else if looping {
                Some(items[0])
            } else {
                None
            };
            let backward = if ci > 0 {
                Some(items[ci - 1])
            } else if looping {
                Some(items[items.len() - 1])
            } else {
                None
            };
            let target = |k: RovingFocusKey| match spec_intent(k, orientation, dir) {
                Some(i) => spec_target(items, current, i, looping),
                None => None,
            };
            &&& items[ci] == current
            &&& orientation == Orientation::Vertical ==> target(RovingFocusKey::ArrowDown)
                == forward && target(RovingFocusKey::ArrowUp) == backward && target(
                RovingFocusKey::ArrowLeft,
            ) is None && target(RovingFocusKey::ArrowRight) is None
            &&& orientation == Orientation::Horizontal ==> target(RovingFocusKey::ArrowDown) is None
                && target(RovingFocusKey::ArrowUp) is None
            &&& orientation == Orientation::Horizontal && dir == Direction::Ltr ==> target(
                RovingFocusKey::ArrowRight,
            ) == forward && target(RovingFocusKey::ArrowLeft) == backward
            &&& orientation == Orientation::Horizontal && dir == Direction::Rtl ==> target(
                RovingFocusKey::ArrowRight,
            ) == backward && target(RovingFocusKey::ArrowLeft) == forward
        }),
{
    lemma_first_index_bounds(items, current);
}

/// Finds the first position of `x` in `s`.
pub fn find_text(s: &Vec<String>, x: &str) -> (r: Option<usize>)
    ensures
        match r {
            Some(i) => i as int == first_index(texts_view(s@), x@),
            None => first_index(texts_view(s@), x@) < 0,
        },
{
    let ghost v = texts_view(s@);
    proof {
        lemma_first_index_bounds(v, x@);
    }
    let mut i: usize = 0;
    while i < s.len()
        invariant
            0 <= i <= s@.len(),
            v == texts_view(s@),
            forall|j: int| 0 <= j < i ==> #[trigger] v[j] != x@,
            -1 <= first_index(v, x@) < v.len(),
            first_index(v, x@) >= 0 ==> v[first_index(v, x@)] == x@,
            first_index(v, x@) >= 0 ==> forall|j: int|
                0 <= j < first_index(v, x@) ==> v[j] != x@,
            first_index(v, x@) < 0 ==> forall|j: int| 0 <= j < v.len() ==> v[j] != x@,
        decreases s@.len() - i,
    {
        if text_eq(s[i].as_str(), x) {
            assert(v[i as int] == x@);
            return Some(i);
        }
        i = i + 1;
    }
    None
}

/// Keyboard focus movement through a collection with one tab stop.
#[derive(Clone, Copy, Debug, PartialEq, Eq)]
pub struct RovingFocusController {
    pub dir: Direction,
    pub orientation: Orientation,
    pub looping: bool,
}

impl RovingFocusController {
    pub fn new(dir: Direction) -> (c: Self)
        ensures
            c == (RovingFocusController { dir, orientation: Orientation::Horizontal, looping: false }),
    {
        RovingFocusController { dir, orientation: Orientation::Horizontal, looping: false }
    }

    pub fn with_orientation(self, orientation: Orientation) -> (c: Self)
        ensures
            c == (RovingFocusController { orientation, ..self }),
    {
        RovingFocusController { orientation, ..self }
    }

    pub fn with_looping(self, looping: bool) -> (c: Self)
        ensures
            c == (RovingFocusController { looping, ..self }),
    {
        RovingFocusController { looping, ..self }
    }

    pub fn intent(&self, key: RovingFocusKey) -> (i: Option<FocusIntent>)
        ensures
            i == spec_intent(key, self.orientation, self.dir),
    {
        match key {
            RovingFocusKey::Home => Some(FocusIntent::First),
            RovingFocusKey::End => Some(FocusIntent::Last),
            RovingFocusKey::ArrowLeft => if self.orientation == Orientation::Horizontal {
                Some(
                    if self.dir == Direction::Rtl {
                        FocusIntent::Next
                    } else {
                        FocusIntent::Prev
                    },
                )
            } else {
                None
            },
            RovingFocusKey::ArrowRight => if self.orientation == Orientation::Horizontal {
                Some(
                    if self.dir == Direction::Rtl {
                        FocusIntent::Prev
                    } else {
                        FocusIntent::Next
                    },
                )
            } else {
                None
            },
            RovingFocusKey::ArrowUp => if self.orientation == Orientation::Vertical {
                Some(FocusIntent::Prev)
            } else {
                None
            },
            RovingFocusKey::ArrowDown => if self.orientation == Orientation::Vertical {
                Some(FocusIntent::Next)
            } else {
                None
            },
        }
    }

    /// The focusable item `key` moves focus to from `current`, if any.
    pub fn navigate(&self, items: &Vec<String>, current: &str, key: RovingFocusKey) -> (r: Option<
        String,
    >)
        ensures
            match spec_intent(key, self.orientation, self.dir) {
                Some(intent) => match spec_target(texts_view(items@), current@, intent, self.looping) {
                    Some(t) => r matches Some(s) && s@ == t,
                    None => r is None,
                },
                None => r is None,
            },
    {
        let ghost v = texts_view(items@);
        let n = items.len();
        let intent = match self.intent(key) {
            Some(i) => i,
            None => return None,
        };
        if n == 0 {
            return None;
        }
        proof {
            lemma_first_index_bounds(v, current@);
        }
        let ci = find_text(items, current);
        let target: Option<usize> = match intent {
            FocusIntent::First => Some(0),
            FocusIntent::Last => Some(n - 1),
            FocusIntent::Next => match ci {
                None => Some(0),
                Some(i) => if i + 1 < n {
                    Some(i + 1)
                } else if self.looping {
                    Some(0)
                } else {
                    None
                },
            },
            FocusIntent::Prev => match ci {
                None => Some(n - 1),
                Some(i) => if i > 0 {
                    Some(i - 1)
                } else if self.looping {
                    Some(n - 1)
                } else {
                    None
                },
            },
        };
        match target {
            Some(t) => Some(items[t].clone()),
            None => None,
        }
    }
}

} // verus!
