use vstd::prelude::*;

verus! {

/// Compares two texts character by character.
pub fn text_eq(a: &str, b: &str) -> (r: bool)
    ensures
        r == (a@ == b@),
{
    let x = a.to_owned();
    let y = b.to_owned();
    x == y
}

/// The views of a sequence of owned texts.
pub open spec fn texts_view(texts: Seq<String>) -> Seq<Seq<char>> {
    texts.map_values(|t: String| t@)
}

/// The view of an optional owned text.
pub open spec fn opt_text_view(text: Option<String>) -> Option<Seq<char>> {
    match text {
        Some(t) => Some(t@),
        None => None,
    }
}

/// Searches `haystack` for a text equal to `needle`.
pub fn contains_text(haystack: &[String], needle: &str) -> (r: bool)
    ensures
        r == texts_view(haystack@).contains(needle@),
{
    let ghost hv = texts_view(haystack@);
    let mut i: usize = 0;
    while i < haystack.len()
        invariant
            0 <= i <= haystack@.len(),
            hv == texts_view(haystack@),
            forall|j: int| 0 <= j < i ==> #[trigger] hv[j] != needle@,
        decreases haystack@.len() - i,
    {
        if text_eq(haystack[i].as_str(), needle) {
            assert(hv[i as int] == needle@);
            return true;
        }
        i = i + 1;
    }
    assert(!hv.contains(needle@));
    false
}

/// An identifier for a family instance. Every part id is derived from its token.
#[derive(Debug, PartialEq, Eq)]
pub struct ScopeHandle {
    token: String,
}

/// The id `token-part`.
pub open spec fn qualified(token: Seq<char>, part: Seq<char>) -> Seq<char> {
    token + "-"@ + part
}

impl View for ScopeHandle {
    type V = Seq<char>;

    closed spec fn view(&self) -> Seq<char> {
        self.token@
    }
}

impl Clone for ScopeHandle {
    fn clone(&self) -> (r: Self)
        ensures
            r@ == self@,
    {
        ScopeHandle { token: self.token.clone() }
    }
}

impl ScopeHandle {
    /// A top-level scope whose token is `name`.
    pub fn root(name: &str) -> (s: Self)
        ensures
            s@ == name@,
    {
        ScopeHandle { token: name.to_owned() }
    }

    /// A nested scope whose token is this token qualified by `name`.
    pub fn child(&self, name: &str) -> (s: Self)
        ensures
            s@ == qualified(self@, name@),
    {
        ScopeHandle { token: self.qualify(name) }
    }

    pub fn token(&self) -> (t: String)
        ensures
            t@ == self@,
    {
        self.token.clone()
    }

    /// The id of `part` inside this scope.
    pub fn qualify(&self, part: &str) -> (t: String)
        ensures
            t@ == qualified(self@, part@),
    {
        let t = self.token.clone();
        let t = t.concat("-");
        proof {
            reveal_strlit("-");
        }
        t.concat(part)
    }
}

} // verus!
