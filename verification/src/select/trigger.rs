use vstd::prelude::*;
use vstd::string::StrSliceExecFns;
use super::{
    runtime::{label_of, SelectRuntime, SelectRuntimeView},
    types::SelectMode,
};
use crate::foundation::{
    shared::{text_eq, texts_view},
    text::{char_text, join_texts, joined, uppercase_char_text, uppercase_of_char},
};

verus! {

/// The characters that separate the words of a value.
pub open spec fn is_word_separator(c: char) -> bool {
    c == '-' || c == '_'
}

/// Reading `s` from the left: the words finished so far and the word being read.
pub open spec fn word_scan(s: Seq<char>) -> (Seq<Seq<char>>, Seq<char>)
    decreases s.len(),
{
    if s.len() == 0 {
        (Seq::empty(), Seq::empty())
    } else {
        let (done, cur) = word_scan(s.drop_last());
        if is_word_separator(s.last()) {
            if cur.len() > 0 {
                (done.push(cur), Seq::empty())
            } else {
                (done, cur)
            }
        } else {
            (done, cur.push(s.last()))
        }
    }
}

/// The maximal runs of characters other than the separators, in order.
pub open spec fn words(s: Seq<char>) -> Seq<Seq<char>> {
    let (done, cur) = word_scan(s);
    if cur.len() > 0 {
        done.push(cur)
    } else {
        done
    }
}

/// A non-empty word with its first character in upper case.
pub open spec fn capitalized(w: Seq<char>) -> Seq<char> {
    uppercase_of_char(w[0]) + w.subrange(1, w.len() as int)
}

/// A value made readable: its words capitalized and joined by spaces; a value with no words
/// stays as it is.
pub open spec fn humanized(val: Seq<char>) -> Seq<char> {
    if val.len() == 0 {
        Seq::empty()
    } else if words(val).len() == 0 {
        val
    } else {
        joined(words(val).map_values(|w: Seq<char>| capitalized(w)), " "@)
    }
}

fn split_words(val: &str) -> (ws: Vec<String>)
    ensures
        texts_view(ws@) == words(val@),
        forall|k: int| 0 <= k < ws@.len() ==> (#[trigger] ws@[k])@.len() > 0,
{
    let n = val.unicode_len();
    let mut done: Vec<String> = Vec::new();
    let mut cur = String::new();
    let mut i: usize = 0;
    assert(val@.take(0) =~= Seq::<char>::empty());
    assert(texts_view(done@) =~= Seq::<Seq<char>>::empty());
    while i < n
        invariant
            0 <= i <= n,
            n == val@.len(),
            (texts_view(done@), cur@) == word_scan(val@.take(i as int)),
            forall|k: int| 0 <= k < done@.len() ==> (#[trigger] done@[k])@.len() > 0,
        decreases n - i,
    {
        let c = val.get_char(i);
        assert(val@.take(i + 1).drop_last() =~= val@.take(i as int));
        assert(val@.take(i + 1).last() == c);
        if c == '-' || c == '_' {
            if cur.unicode_len() > 0 {
                let ghost before = texts_view(done@);
                let finished = cur;
                done.push(finished);
                cur = String::new();
                assert(texts_view(done@) =~= before.push(finished@));
            }
        } else {
            let ghost before = cur@;
            cur.append(char_text(c).as_str());
            assert(cur@ =~= before.push(c));
        }
        i = i + 1;
    }
    assert(val@.take(n as int) =~= val@);
    if cur.unicode_len() > 0 {
        let ghost before = texts_view(done@);
        let last = cur;
        done.push(last);
        assert(texts_view(done@) =~= before.push(last@));
    }
    done
}

fn capitalize(w: &str) -> (r: String)
    requires
        w@.len() > 0,
    ensures
        r@ == capitalized(w@),
{
    let n = w.unicode_len();
    let mut r = uppercase_char_text(w.get_char(0));
    r.append(w.substring_char(1, n));
    r
}

/// Makes a value readable: "dark-mode_on" reads "Dark Mode On".
pub fn humanize_label(val: &str) -> (r: String)
    ensures
        r@ == humanized(val@),
{
    if val.unicode_len() == 0 {
        return String::new();
    }
    let ws = split_words(val);
    if ws.len() == 0 {
        return val.to_owned();
    }
    let ghost wv = texts_view(ws@);
    let mut parts: Vec<String> = Vec::new();
    let mut i: usize = 0;
    while i < ws.len()
        invariant
            0 <= i <= ws@.len(),
            wv == texts_view(ws@),
            wv == words(val@),
            forall|k: int| 0 <= k < ws@.len() ==> (#[trigger] ws@[k])@.len() > 0,
            texts_view(parts@) == wv.map_values(|w: Seq<char>| capitalized(w)).take(i as int),
        decreases ws@.len() - i,
    {
        let ghost before = texts_view(parts@);
        let part = capitalize(ws[i].as_str());
        assert(wv[i as int] == ws@[i as int]@);
        let ghost pv = part@;
        parts.push(part);
        assert(texts_view(parts@) =~= before.push(pv));
        assert(texts_view(parts@) =~= wv.map_values(|w: Seq<char>| capitalized(w)).take(i + 1));
        i = i + 1;
    }
    assert(wv.map_values(|w: Seq<char>| capitalized(w)).take(ws@.len() as int) =~= wv.map_values(
        |w: Seq<char>| capitalized(w),
    ));
    join_texts(&parts, " ")
}

/// How a chosen value reads: its option's text when that is non-empty and differs from the
/// value, else the value made readable.
pub open spec fn shown_label(items: Seq<super::types::SelectItemData>, v: Seq<char>) -> Seq<char> {
    match label_of(items, v) {
        Some(l) => if l.len() > 0 && l != v {
            l
        } else {
            humanized(v)
        },
        None => humanized(v),
    }
}

/// What the trigger shows for the choice: nothing when nothing (or the empty value) is
/// chosen, else the labels of the chosen values joined by ", ".
pub open spec fn shown_value(rt: SelectRuntimeView) -> Seq<char> {
    match rt.select.mode {
        SelectMode::Single { .. } => match rt.value {
            Some(v) => if v.len() == 0 {
                Seq::empty()
            } else {
                shown_label(rt.items, v)
            },
            None => Seq::empty(),
        },
        SelectMode::Multiple => if rt.values.len() == 0 {
            Seq::empty()
        } else {
            joined(rt.values.map_values(|v: Seq<char>| shown_label(rt.items, v)), ", "@)
        },
    }
}

impl SelectRuntime {
    fn label_text(&self, v: &str) -> (r: String)
        ensures
            r@ == shown_label(self@.items, v@),
    {
        match self.item_label(v) {
            Some(l) => {
                if l.unicode_len() > 0 && !text_eq(l.as_str(), v) {
                    l
                } else {
                    humanize_label(v)
                }
            },
            None => humanize_label(v),
        }
    }

    /// The text the trigger shows for the current choice.
    pub fn value_text(&self) -> (r: String)
        ensures
            r@ == shown_value(self@),
    {
        match self.select.mode {
            SelectMode::Single { .. } => match &self.value {
                Some(v) => {
                    if v.unicode_len() == 0 {
                        String::new()
                    } else {
                        self.label_text(v.as_str())
                    }
                },
                None => String::new(),
            },
            SelectMode::Multiple => {
                if self.values.len() == 0 {
                    return String::new();
                }
                let ghost vv = texts_view(self.values@);
                let ghost items = self@.items;
                let mut labels: Vec<String> = Vec::new();
                let mut i: usize = 0;
                while i < self.values.len()
                    invariant
                        0 <= i <= self.values@.len(),
                        vv == texts_view(self.values@),
                        items == self@.items,
                        texts_view(labels@) == vv.map_values(
                            |v: Seq<char>| shown_label(items, v),
                        ).take(i as int),
                    decreases self.values@.len() - i,
                {
                    let ghost before = texts_view(labels@);
                    let l = self.label_text(self.values[i].as_str());
                    assert(vv[i as int] == self.values@[i as int]@);
                    let ghost lv = l@;
                    labels.push(l);
                    assert(texts_view(labels@) =~= before.push(lv));
                    assert(texts_view(labels@) =~= vv.map_values(
                        |v: Seq<char>| shown_label(items, v),
                    ).take(i + 1));
                    i = i + 1;
                }
                assert(vv.map_values(|v: Seq<char>| shown_label(items, v)).take(
                    self.values@.len() as int,
                ) =~= vv.map_values(|v: Seq<char>| shown_label(items, v)));
                join_texts(&labels, ", ")
            },
        }
    }
}

/// The values a form submits for the select: each chosen value in multiple mode when there
/// are some, else the single value (the empty text when nothing is chosen).
pub open spec fn submitted_values(rt: SelectRuntimeView) -> Seq<Seq<char>> {
    if rt.select.mode is Multiple && rt.values.len() > 0 {
        rt.values
    } else {
        seq![
            match rt.value {
                Some(v) => v,
                None => Seq::empty(),
            },
        ]
    }
}

impl SelectRuntime {
    /// The values of the hidden form inputs, one input each.
    pub fn hidden_input_values(&self) -> (r: Vec<String>)
        ensures
            texts_view(r@) == submitted_values(self@),
    {
        if self.select.mode.is_multiple() && self.values.len() > 0 {
            return super::state::clone_values(&self.values);
        }
        let v = match &self.value {
            Some(v) => v.clone(),
            None => String::new(),
        };
        let r = vec![v];
        assert(texts_view(r@) =~= submitted_values(self@));
        r
    }
}

} // verus!
