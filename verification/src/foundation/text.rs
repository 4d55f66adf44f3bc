use vstd::prelude::*;
use vstd::string::StrSliceExecFns;
use crate::foundation::shared::{text_eq, texts_view};

verus! {

/// The character of decimal digit `d`.
pub open spec fn digit_char(d: nat) -> char {
    "0123456789"@[d as int]
}

/// The decimal writing of `n`, without leading zeros.
pub open spec fn decimal(n: nat) -> Seq<char>
    decreases n,
{
    if n < 10 {
        seq![digit_char(n)]
    } else {
        decimal(n / 10) + seq![digit_char(n % 10)]
    }
}

fn digit_str(d: usize) -> (s: &'static str)
    requires
        d < 10,
    ensures
        s@ == seq![digit_char(d as nat)],
{
    proof {
        reveal_strlit("0123456789");
    }
    let s = "0123456789".substring_char(d, d + 1);
    assert(s@ =~= seq![digit_char(d as nat)]);
    s
}

/// Writes `n` in decimal.
pub fn decimal_text(n: usize) -> (s: String)
    ensures
        s@ == decimal(n as nat),
    decreases n,
{
    if n < 10 {
        digit_str(n).to_owned()
    } else {
        let mut s = decimal_text(n / 10);
        s.append(digit_str(n % 10));
        s
    }
}

/// `s` with every occurrence of `pat`, scanned left to right without overlap, replaced by `rep`.
pub open spec fn replaced(s: Seq<char>, pat: Seq<char>, rep: Seq<char>) -> Seq<char>
    decreases s.len(),
{
    if s.len() == 0 {
        Seq::empty()
    } else if pat.len() > 0 && pat.len() <= s.len() && s.subrange(0, pat.len() as int) == pat {
        rep + replaced(s.subrange(pat.len() as int, s.len() as int), pat, rep)
    } else {
        seq![s[0]] + replaced(s.subrange(1, s.len() as int), pat, rep)
    }
}

/// Replaces each occurrence of the non-empty `pat` in `s` by `rep`.
pub fn replace_text(s: &str, pat: &str, rep: &str) -> (r: String)
    requires
        pat@.len() > 0,
    ensures
        r@ == replaced(s@, pat@, rep@),
{
    let n = s.unicode_len();
    let plen = pat.unicode_len();
    let mut r = String::new();
    let mut i: usize = 0;
    assert(s@.subrange(0, n as int) =~= s@);
    assert(r@ + replaced(s@, pat@, rep@) =~= replaced(s@, pat@, rep@));
    while i < n
        invariant
            n == s@.len(),
            plen == pat@.len(),
            plen > 0,
            i <= n,
            r@ + replaced(s@.subrange(i as int, n as int), pat@, rep@) == replaced(
                s@,
                pat@,
                rep@,
            ),
        decreases n - i,
    {
        let ghost rest = s@.subrange(i as int, n as int);
        if plen <= n - i && text_eq(s.substring_char(i, i + plen), pat) {
            assert(rest.subrange(0, plen as int) =~= s@.subrange(i as int, (i + plen) as int));
            assert(rest.subrange(plen as int, rest.len() as int) =~= s@.subrange(
                (i + plen) as int,
                n as int,
            ));
            let ghost before = r@;
            r.append(rep);
            let ghost tail = replaced(s@.subrange((i + plen) as int, n as int), pat@, rep@);
            assert(r@ + tail =~= before + (rep@ + tail));
            i = i + plen;
        } else {
            let c = s.substring_char(i, i + 1);
            assert(c@ =~= seq![rest[0]]);
            assert(plen <= n - i ==> rest.subrange(0, plen as int) =~= s@.subrange(
                i as int,
                (i + plen) as int,
            ));
            assert(rest.subrange(1, rest.len() as int) =~= s@.subrange((i + 1) as int, n as int));
            let ghost before = r@;
            r.append(c);
            let ghost tail = replaced(s@.subrange((i + 1) as int, n as int), pat@, rep@);
            assert(r@ + tail =~= before + (seq![rest[0]] + tail));
            i = i + 1;
        }
    }
    assert(s@.subrange(n as int, n as int) =~= Seq::<char>::empty());
    assert(r@ + Seq::<char>::empty() =~= r@);
    r
}

/// The texts of `list` written one after another with `sep` between two neighbours.
pub open spec fn joined(list: Seq<Seq<char>>, sep: Seq<char>) -> Seq<char>
    decreases list.len(),
{
    if list.len() == 0 {
        Seq::empty()
    } else if list.len() == 1 {
        list[0]
    } else {
        joined(list.drop_last(), sep) + sep + list.last()
    }
}

/// Joins `list` with `sep` between neighbours.
pub fn join_texts(list: &Vec<String>, sep: &str) -> (r: String)
    ensures
        r@ == joined(texts_view(list@), sep@),
{
    let ghost all = texts_view(list@);
    let mut r = String::new();
    let mut i: usize = 0;
    while i < list.len()
        invariant
            0 <= i <= list@.len(),
            all == texts_view(list@),
            r@ == joined(all.take(i as int), sep@),
        decreases list@.len() - i,
    {
        assert(all.take(i + 1).drop_last() =~= all.take(i as int));
        if i != 0 {
            r.append(sep);
        }
        r.append(list[i].as_str());
        proof {
            if i == 0 {
                assert(r@ =~= all.take(1)[0]);
            }
        }
        i = i + 1;
    }
    assert(all.take(list@.len() as int) =~= all);
    r
}

/// `p` is a prefix of `s`.
pub open spec fn has_prefix(s: Seq<char>, p: Seq<char>) -> bool {
    p.len() <= s.len() && s.subrange(0, p.len() as int) == p
}

/// Whether `s` starts with `p`.
pub fn starts_with_text(s: &str, p: &str) -> (b: bool)
    ensures
        b == has_prefix(s@, p@),
{
    let n = s.unicode_len();
    let m = p.unicode_len();
    if m > n {
        return false;
    }
    text_eq(s.substring_char(0, m), p)
}

/// The lowercase form of a text, as `str::to_lowercase` gives it (by the Unicode `Lowercase`
/// mapping of each character).
pub uninterp spec fn lowercase_of(s: Seq<char>) -> Seq<char>;

/// Calls `str::to_lowercase`. Claimed: the result is `lowercase_of` the argument, a function of
/// the text alone; nothing is claimed of what that mapping does to each character.
#[verifier::external_body]
pub(crate) fn lowercase_text(s: &str) -> (r: String)
    ensures
        r@ == lowercase_of(s@),
{
    s.to_lowercase()
}

/// Whether a character is alphabetic or numeric in the sense of `char::is_alphanumeric`.
pub uninterp spec fn alphanumeric(c: char) -> bool;

/// Calls `char::is_alphanumeric`. Claimed: the answer is `alphanumeric(c)`, a function of the
/// character alone; which characters it accepts is not stated.
#[verifier::external_body]
pub(crate) fn is_alphanumeric_char(c: char) -> (b: bool)
    ensures
        b == alphanumeric(c),
{
    c.is_alphanumeric()
}

/// Whether a character has the Unicode `White_Space` property, as `char::is_whitespace` tells.
pub uninterp spec fn whitespace(c: char) -> bool;

/// Calls `char::is_whitespace`. Claimed: the answer is `whitespace(c)`, a function of the
/// character alone; which characters it accepts is not stated.
#[verifier::external_body]
pub(crate) fn is_whitespace_char(c: char) -> (b: bool)
    ensures
        b == whitespace(c),
{
    c.is_whitespace()
}

/// Calls `String::from` on a character. Claimed: the text holds exactly that character.
#[verifier::external_body]
pub(crate) fn char_text(c: char) -> (s: String)
    ensures
        s@ == seq![c],
{
    String::from(c)
}

/// The upper-case form of a character, as `char::to_uppercase` gives it (one or more
/// characters).
pub uninterp spec fn uppercase_of_char(c: char) -> Seq<char>;

/// Calls `char::to_uppercase` and writes the characters it yields. Claimed: the text is
/// `uppercase_of_char(c)`, a function of the character alone; the mapping itself is not stated.
#[verifier::external_body]
pub(crate) fn uppercase_char_text(c: char) -> (s: String)
    ensures
        s@ == uppercase_of_char(c),
{
    c.to_uppercase().to_string()
}

} // verus!
