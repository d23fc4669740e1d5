//! Text as characters: Unicode white space, trimming, and scanning runs of a class of
//! characters.

use vstd::prelude::*;

verus! {

broadcast use vstd::std_specs::iter::group_iter_axioms, vstd::string::axiom_spec_iter;

/// The characters with the Unicode `White_Space` property, which `str::trim` removes.
pub open spec fn spec_is_white_space(c: char) -> bool {
    let v = c as u32;
    ||| 0x09 <= v <= 0x0D
    ||| v == 0x20
    ||| v == 0x85
    ||| v == 0xA0
    ||| v == 0x1680
    ||| 0x2000 <= v <= 0x200A
    ||| v == 0x2028
    ||| v == 0x2029
    ||| v == 0x202F
    ||| v == 0x205F
    ||| v == 0x3000
}

/// ASCII white space as `u8::is_ascii_whitespace` has it: space, tab, line feed, form feed
/// and carriage return.
pub open spec fn is_ascii_white_space(c: char) -> bool {
    c == ' ' || c == '\t' || c == '\n' || c == '\x0C' || c == '\r'
}

/// The classes of characters the scanner walks over.
#[derive(Clone, Copy, PartialEq, Eq)]
pub enum CharClass {
    /// What separates top-level groups: a comma or ASCII white space.
    Separator,
    /// Unicode white space, which names are trimmed of.
    WhiteSpace,
    /// Anything but a comma.
    NotComma,
    /// What a top-level name is made of: anything but a comma or an opening bracket.
    NameChar,
    /// Anything but a closing bracket.
    NotClose,
}

/// Whether `c` belongs to class `k`.
pub open spec fn in_class(c: char, k: CharClass) -> bool {
    match k {
        CharClass::Separator => c == ',' || is_ascii_white_space(c),
        CharClass::WhiteSpace => spec_is_white_space(c),
        CharClass::NotComma => c != ',',
        CharClass::NameChar => c != ',' && c != '[',
        CharClass::NotClose => c != ']',
    }
}

/// The length of the longest prefix of `s` made of class `k`.
pub open spec fn count_while(s: Seq<char>, k: CharClass) -> nat
    decreases s.len(),
{
    if s.len() > 0 && in_class(s[0], k) {
        1 + count_while(s.subrange(1, s.len() as int), k)
    } else {
        0
    }
}

/// The length of the longest suffix of `s` made of class `k`.
pub open spec fn count_back(s: Seq<char>, k: CharClass) -> nat
    decreases s.len(),
{
    if s.len() > 0 && in_class(s[s.len() - 1], k) {
        1 + count_back(s.subrange(0, s.len() - 1), k)
    } else {
        0
    }
}

/// `s` without its leading and trailing Unicode white space, as `str::trim` gives it.
pub open spec fn trim(s: Seq<char>) -> Seq<char> {
    let rest = s.subrange(count_while(s, CharClass::WhiteSpace) as int, s.len() as int);
    rest.subrange(0, rest.len() - count_back(rest, CharClass::WhiteSpace))
}

/// The prefix count never exceeds the length.
pub proof fn lemma_count_while_bound(s: Seq<char>, k: CharClass)
    ensures
        count_while(s, k) <= s.len(),
    decreases s.len(),
{
    if s.len() > 0 && in_class(s[0], k) {
        lemma_count_while_bound(s.subrange(1, s.len() as int), k);
    }
}

/// The prefix count is a length of `s`; every character before it is in the class and the one
/// at it, if any, is not.
pub proof fn lemma_count_while_facts(s: Seq<char>, k: CharClass)
    ensures
        count_while(s, k) <= s.len(),
        forall|m: int| 0 <= m < count_while(s, k) ==> in_class(#[trigger] s[m], k),
        count_while(s, k) < s.len() ==> !in_class(s[count_while(s, k) as int], k),
    decreases s.len(),
{
    if s.len() > 0 && in_class(s[0], k) {
        let t = s.subrange(1, s.len() as int);
        lemma_count_while_facts(t, k);
        assert forall|m: int| 0 <= m < count_while(s, k) implies in_class(#[trigger] s[m], k) by {
            if m > 0 {
                assert(s[m] == t[m - 1]);
            }
        }
        if count_while(s, k) < s.len() {
            assert(s[count_while(s, k) as int] == t[count_while(t, k) as int]);
        }
    }
}

/// The prefix count is `n` when the first `n` characters are in the class and the next is not.
pub proof fn lemma_count_while_is(s: Seq<char>, k: CharClass, n: int)
    requires
        0 <= n <= s.len(),
        forall|m: int| 0 <= m < n ==> in_class(#[trigger] s[m], k),
        n == s.len() || !in_class(s[n], k),
    ensures
        count_while(s, k) == n,
    decreases n,
{
    if n > 0 {
        let t = s.subrange(1, s.len() as int);
        assert forall|m: int| 0 <= m < n - 1 implies in_class(#[trigger] t[m], k) by {
            assert(t[m] == s[m + 1]);
        }
        if n < s.len() {
            assert(t[n - 1] == s[n]);
        }
        lemma_count_while_is(t, k, n - 1);
    }
}

/// The suffix count is `n` when the last `n` characters are in the class and the one before
/// them is not.
pub proof fn lemma_count_back_is(s: Seq<char>, k: CharClass, n: int)
    requires
        0 <= n <= s.len(),
        forall|m: int| s.len() - n <= m < s.len() ==> in_class(#[trigger] s[m], k),
        n == s.len() || !in_class(s[s.len() - n - 1], k),
    ensures
        count_back(s, k) == n,
    decreases n,
{
    if n > 0 {
        let t = s.subrange(0, s.len() - 1);
        assert forall|m: int| t.len() - (n - 1) <= m < t.len() implies in_class(#[trigger] t[m], k) by {
            assert(t[m] == s[m]);
        }
        if n < s.len() {
            assert(t[t.len() - (n - 1) - 1] == s[s.len() - n - 1]);
        }
        lemma_count_back_is(t, k, n - 1);
    }
}

/// Whether `c` is Unicode white space, as `char::is_whitespace` answers.
pub fn is_white_space(c: char) -> (r: bool)
    ensures
        r == spec_is_white_space(c),
{
    let v = c as u32;
    (0x09 <= v && v <= 0x0D) || v == 0x20 || v == 0x85 || v == 0xA0 || v == 0x1680 || (0x2000
        <= v && v <= 0x200A) || v == 0x2028 || v == 0x2029 || v == 0x202F || v == 0x205F || v
        == 0x3000
}

pub fn char_in_class(c: char, k: CharClass) -> (r: bool)
    ensures
        r == in_class(c, k),
{
    match k {
        CharClass::Separator => c == ',' || c == ' ' || c == '\t' || c == '\n' || c == '\x0C'
            || c == '\r',
        CharClass::WhiteSpace => is_white_space(c),
        CharClass::NotComma => c != ',',
        CharClass::NameChar => c != ',' && c != '[',
        CharClass::NotClose => c != ']',
    }
}

/// The first position at or after `from` and before `to` whose character is not of class
/// `k`, or `to`.
pub fn scan_while(cs: &Vec<char>, from: usize, to: usize, k: CharClass) -> (r: usize)
    requires
        from <= to <= cs@.len(),
    ensures
        from <= r <= to,
        count_while(cs@.subrange(from as int, to as int), k) == r - from,
{
    let mut i = from;
    while i < to && char_in_class(cs[i], k)
        invariant
            from <= i <= to <= cs@.len(),
            forall|m: int| from <= m < i ==> in_class(#[trigger] cs@[m], k),
        decreases to - i,
    {
        i = i + 1;
    }
    proof {
        let s = cs@.subrange(from as int, to as int);
        assert forall|m: int| 0 <= m < i - from implies in_class(#[trigger] s[m], k) by {
            assert(s[m] == cs@[from + m]);
        }
        if i < to {
            assert(s[i - from] == cs@[i as int]);
        }
        lemma_count_while_is(s, k, i - from);
    }
    i
}

/// The last position after `from` and at or before `to` such that everything from it to `to`
/// is of class `k`.
pub fn scan_back(cs: &Vec<char>, from: usize, to: usize, k: CharClass) -> (r: usize)
    requires
        from <= to <= cs@.len(),
    ensures
        from <= r <= to,
        count_back(cs@.subrange(from as int, to as int), k) == to - r,
{
    let mut i = to;
    while i > from && char_in_class(cs[i - 1], k)
        invariant
            from <= i <= to <= cs@.len(),
            forall|m: int| i <= m < to ==> in_class(#[trigger] cs@[m], k),
        decreases i - from,
    {
        i = i - 1;
    }
    proof {
        let s = cs@.subrange(from as int, to as int);
        assert forall|m: int| s.len() - (to - i) <= m < s.len() implies in_class(#[trigger] s[m], k) by {
            assert(s[m] == cs@[from + m]);
        }
        if i > from {
            assert(s[s.len() - (to - i) - 1] == cs@[i - 1]);
        }
        lemma_count_back_is(s, k, to - i);
    }
    i
}

/// The bounds of `cs[from..to]` once trimmed.
pub fn trim_bounds(cs: &Vec<char>, from: usize, to: usize) -> (r: (usize, usize))
    requires
        from <= to <= cs@.len(),
    ensures
        from <= r.0 <= r.1 <= to,
        cs@.subrange(r.0 as int, r.1 as int) == trim(cs@.subrange(from as int, to as int)),
{
    let lo = scan_while(cs, from, to, CharClass::WhiteSpace);
    let hi = scan_back(cs, lo, to, CharClass::WhiteSpace);
    proof {
        let s = cs@.subrange(from as int, to as int);
        let rest = s.subrange(count_while(s, CharClass::WhiteSpace) as int, s.len() as int);
        assert(rest =~= cs@.subrange(lo as int, to as int));
        assert(rest.subrange(0, rest.len() - count_back(rest, CharClass::WhiteSpace))
            =~= cs@.subrange(lo as int, hi as int));
    }
    (lo, hi)
}

/// Whether every character of `s` is of class `k`.
pub open spec fn all_in_class(s: Seq<char>, k: CharClass) -> bool {
    forall|i: int| 0 <= i < s.len() ==> in_class(#[trigger] s[i], k)
}

/// The suffix count is a length of `s`; every character after it is in the class and the one
/// before it, if any, is not.
pub proof fn lemma_count_back_facts(s: Seq<char>, k: CharClass)
    ensures
        count_back(s, k) <= s.len(),
        forall|m: int| s.len() - count_back(s, k) <= m < s.len() ==> in_class(#[trigger] s[m], k),
        count_back(s, k) < s.len() ==> !in_class(s[s.len() - count_back(s, k) - 1], k),
    decreases s.len(),
{
    if s.len() > 0 && in_class(s[s.len() - 1], k) {
        let t = s.subrange(0, s.len() - 1);
        lemma_count_back_facts(t, k);
        assert forall|m: int| s.len() - count_back(s, k) <= m < s.len() implies in_class(
            #[trigger] s[m],
            k,
        ) by {
            if m < s.len() - 1 {
                assert(s[m] == t[m]);
            }
        }
        if count_back(s, k) < s.len() {
            assert(s[s.len() - count_back(s, k) - 1] == t[t.len() - count_back(t, k) - 1]);
        }
    }
}

/// A trimmed sequence is a piece of the untrimmed one with no white space at either end.
pub proof fn lemma_trim_facts(s: Seq<char>)
    ensures
        exists|a: int, b: int| 0 <= a <= b <= s.len() && trim(s) == s.subrange(a, b),
        trim(s).len() > 0 ==> !spec_is_white_space(trim(s)[0]) && !spec_is_white_space(
            trim(s)[trim(s).len() - 1],
        ),
{
    let a = count_while(s, CharClass::WhiteSpace) as int;
    lemma_count_while_facts(s, CharClass::WhiteSpace);
    let rest = s.subrange(a, s.len() as int);
    let b = count_back(rest, CharClass::WhiteSpace) as int;
    lemma_count_back_facts(rest, CharClass::WhiteSpace);
    assert(trim(s) =~= s.subrange(a, s.len() - b));
    if trim(s).len() > 0 {
        assert(trim(s)[0] == s[a]);
        assert(trim(s)[trim(s).len() - 1] == rest[rest.len() - b - 1]);
    }
}

/// Trimming a sequence whose characters are all of class `k` leaves characters of class `k`.
pub proof fn lemma_trim_keeps_class(s: Seq<char>, k: CharClass)
    requires
        all_in_class(s, k),
    ensures
        all_in_class(trim(s), k),
{
    lemma_trim_facts(s);
    let (a, b) = choose|a: int, b: int| 0 <= a <= b <= s.len() && trim(s) == s.subrange(a, b);
    assert forall|i: int| 0 <= i < trim(s).len() implies in_class(#[trigger] trim(s)[i], k) by {
        assert(trim(s)[i] == s[a + i]);
    }
}

/// A leading white-space character makes no difference to the trimmed sequence.
pub proof fn lemma_trim_drops_leading_white_space(s: Seq<char>)
    requires
        s.len() > 0,
        spec_is_white_space(s[0]),
    ensures
        trim(s) == trim(s.subrange(1, s.len() as int)),
{
    let s1 = s.subrange(1, s.len() as int);
    lemma_count_while_bound(s1, CharClass::WhiteSpace);
    assert(count_while(s, CharClass::WhiteSpace) == 1 + count_while(s1, CharClass::WhiteSpace));
    assert(s.subrange(count_while(s, CharClass::WhiteSpace) as int, s.len() as int) =~= s1.subrange(
        count_while(s1, CharClass::WhiteSpace) as int,
        s1.len() as int,
    ));
}

/// Trimming nothing gives nothing.
pub proof fn lemma_trim_empty()
    ensures
        trim(Seq::<char>::empty()).len() == 0,
{
    let e = Seq::<char>::empty();
    assert(count_while(e, CharClass::WhiteSpace) == 0);
}

/// The characters of `s`, in order.
pub fn chars_of(s: &str) -> (r: Vec<char>)
    ensures
        r@ == s@,
{
    let mut out: Vec<char> = Vec::new();
    for c in it: s.chars()
        invariant
            it.seq() == s@,
            out@ == it.seq().subrange(0, it.index()),
    {
        out.push(c);
    }
    out
}

} // verus!
