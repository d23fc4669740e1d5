//! The event list on the command line: `event1,[event2,event3],event4`. Top-level commas
//! separate groups, and square brackets put several events into one group.

use crate::non_empty::NonEmpty;
use crate::text::{
    all_in_class, chars_of, count_while, in_class, lemma_count_while_bound,
    lemma_count_while_facts, lemma_count_while_is, lemma_trim_drops_leading_white_space,
    lemma_trim_empty, lemma_trim_facts, lemma_trim_keeps_class, scan_while, spec_is_white_space,
    trim, trim_bounds, CharClass,
};
use vstd::prelude::*;

verus! {

/// The names in a bracketed group: the comma-separated pieces of `s`, trimmed, leaving out
/// those that are empty once trimmed.
pub open spec fn names_in(s: Seq<char>) -> Seq<Seq<char>>
    decreases s.len(),
{
    let j = count_while(s, CharClass::NotComma);
    let name = trim(s.subrange(0, j as int));
    let here = if name.len() > 0 {
        seq![name]
    } else {
        Seq::empty()
    };
    if j < s.len() {
        here + names_in(s.subrange(j + 1 as int, s.len() as int))
    } else {
        here
    }
}

/// One group of the event list, by the names in it.
pub enum GroupView {
    /// A name standing alone at the top level.
    Single(Seq<char>),
    /// The names between a pair of brackets.
    Bracketed(Seq<Seq<char>>),
}

/// The groups that the event list `s` describes, in order. Separators (commas and ASCII
/// white space) before a group are skipped. A group that opens with `[` runs to the next `]`
/// or the end, and holds the names between them; one with no names is left out. Otherwise
/// the group is the single name that runs to the next comma or `[`, trimmed, and left out if
/// that leaves nothing.
pub open spec fn parse_groups(s: Seq<char>) -> Seq<GroupView>
    decreases s.len(),
{
    let lead = count_while(s, CharClass::Separator);
    if lead >= s.len() {
        Seq::empty()
    } else {
        let t = s.subrange(lead as int, s.len() as int);
        if t[0] == '[' {
            let body = t.subrange(1, t.len() as int);
            let j = count_while(body, CharClass::NotClose);
            let names = names_in(body.subrange(0, j as int));
            let here = if names.len() > 0 {
                seq![GroupView::Bracketed(names)]
            } else {
                Seq::empty()
            };
            if j < body.len() {
                here + parse_groups(body.subrange(j + 1 as int, body.len() as int))
            } else {
                here
            }
        } else {
            let j = count_while(t, CharClass::NameChar);
            let name = trim(t.subrange(0, j as int));
            let here = if name.len() > 0 {
                seq![GroupView::Single(name)]
            } else {
                Seq::empty()
            };
            proof {
                lemma_count_while_facts(s, CharClass::Separator);
                lemma_count_while_bound(t, CharClass::NameChar);
                assert(t[0] == s[lead as int]);
            }
            here + parse_groups(t.subrange(j as int, t.len() as int))
        }
    }
}

/// One group of the event list.
pub enum EventGroupSpec {
    /// A name standing alone at the top level.
    Single(String),
    /// The names between a pair of brackets.
    Bracketed(NonEmpty<String>),
}

impl View for EventGroupSpec {
    type V = GroupView;

    open spec fn view(&self) -> GroupView {
        match self {
            EventGroupSpec::Single(name) => GroupView::Single(name@),
            EventGroupSpec::Bracketed(names) => GroupView::Bracketed(
                names@.map_values(|n: String| n@),
            ),
        }
    }
}

/// The groups of a parsed event list, by the names in them.
pub open spec fn groups_view(gs: Seq<EventGroupSpec>) -> Seq<GroupView> {
    gs.map_values(|g: EventGroupSpec| g@)
}

/// The names of `cs[from..to]`, which are the characters of `s` there.
fn collect_names(s: &str, cs: &Vec<char>, from: usize, to: usize) -> (r: Vec<String>)
    requires
        cs@ == s@,
        from <= to <= cs@.len(),
    ensures
        r@.map_values(|n: String| n@) == names_in(cs@.subrange(from as int, to as int)),
{
    let mut out: Vec<String> = Vec::new();
    let mut a = from;
    loop
        invariant_except_break
            cs@ == s@,
            from <= a <= to <= cs@.len(),
            names_in(cs@.subrange(from as int, to as int)) == out@.map_values(|n: String| n@)
                + names_in(cs@.subrange(a as int, to as int)),
        ensures
            out@.map_values(|n: String| n@) == names_in(cs@.subrange(from as int, to as int)),
        decreases to - a,
    {
        let c = scan_while(cs, a, to, CharClass::NotComma);
        let (lo, hi) = trim_bounds(cs, a, c);
        let ghost before = out@;
        let ghost piece = cs@.subrange(a as int, to as int);
        proof {
            assert(piece.subrange(0, c - a) =~= cs@.subrange(a as int, c as int));
            if c < to {
                assert(piece.subrange(c - a + 1, piece.len() as int) =~= cs@.subrange(
                    c + 1,
                    to as int,
                ));
            }
        }
        if lo < hi {
            let name = s.substring_char(lo, hi).to_owned();
            out.push(name);
            proof {
                assert(out@.map_values(|n: String| n@) =~= before.map_values(|n: String| n@).push(
                    cs@.subrange(lo as int, hi as int),
                ));
            }
        }
        if c == to {
            proof {
                if lo >= hi {
                    assert(out@ == before);
                }
                assert(names_in(piece) =~= out@.map_values(|n: String| n@).subrange(
                    before.len() as int,
                    out@.len() as int,
                ));
                assert(out@.map_values(|n: String| n@) =~= before.map_values(|n: String| n@)
                    + names_in(piece));
            }
            break;
        }
        a = c + 1;
    }
    out
}

/// Splits the event list `s` into its groups.
pub fn parse_event_groups(s: &str) -> (r: Vec<EventGroupSpec>)
    ensures
        groups_view(r@) == parse_groups(s@),
{
    let cs = chars_of(s);
    let n = cs.len();
    let mut groups: Vec<EventGroupSpec> = Vec::new();
    let mut i: usize = 0;
    proof {
        assert(cs@.subrange(0, n as int) =~= cs@);
        assert(groups_view(groups@) =~= Seq::<GroupView>::empty());
    }
    loop
        invariant_except_break
            cs@ == s@,
            n == cs@.len(),
            i <= n,
            parse_groups(s@) == groups_view(groups@) + parse_groups(cs@.subrange(i as int, n as int)),
        ensures
            groups_view(groups@) == parse_groups(s@),
        decreases n - i,
    {
        let ghost u = cs@.subrange(i as int, n as int);
        let ghost before = groups@;
        let k = scan_while(&cs, i, n, CharClass::Separator);
        if k == n {
            proof {
                assert(parse_groups(u) =~= Seq::<GroupView>::empty());
                assert(groups_view(groups@) + parse_groups(u) =~= groups_view(groups@));
            }
            break;
        }
        let ghost t = u.subrange(k - i, u.len() as int);
        proof {
            assert(t =~= cs@.subrange(k as int, n as int));
            assert(t[0] == cs@[k as int]);
        }
        if cs[k] == '[' {
            let c = scan_while(&cs, k + 1, n, CharClass::NotClose);
            let names = collect_names(s, &cs, k + 1, c);
            let ghost body = t.subrange(1, t.len() as int);
            proof {
                assert(body =~= cs@.subrange(k + 1, n as int));
                assert(body.subrange(0, c - (k + 1)) =~= cs@.subrange(k + 1, c as int));
                if c < n {
                    assert(body.subrange(c - (k + 1) + 1, body.len() as int) =~= cs@.subrange(
                        c + 1,
                        n as int,
                    ));
                }
            }
            let ghost names_view = names@.map_values(|x: String| x@);
            match crate::non_empty::MaybeNonEmpty::from_vec(names).into_option() {
                Some(ne) => {
                    groups.push(EventGroupSpec::Bracketed(ne));
                    proof {
                        assert(groups_view(groups@) =~= groups_view(before).push(
                            GroupView::Bracketed(names_view),
                        ));
                    }
                },
                None => {
                    proof {
                        assert(names_view =~= Seq::<Seq<char>>::empty());
                    }
                },
            }
            if c == n {
                proof {
                    assert(groups_view(before) + parse_groups(u) =~= groups_view(groups@));
                }
                break;
            }
            proof {
                assert(groups_view(before) + parse_groups(u) =~= groups_view(groups@)
                    + parse_groups(cs@.subrange(c + 1, n as int)));
            }
            i = c + 1;
        } else {
            let e = scan_while(&cs, k, n, CharClass::NameChar);
            let (lo, hi) = trim_bounds(&cs, k, e);
            proof {
                assert(t.subrange(0, e - k) =~= cs@.subrange(k as int, e as int));
                assert(t.subrange(e - k, t.len() as int) =~= cs@.subrange(e as int, n as int));
            }
            if lo < hi {
                let name = s.substring_char(lo, hi).to_owned();
                groups.push(EventGroupSpec::Single(name));
                proof {
                    assert(groups_view(groups@) =~= groups_view(before).push(
                        GroupView::Single(cs@.subrange(lo as int, hi as int)),
                    ));
                }
            }
            proof {
                assert(groups_view(before) + parse_groups(u) =~= groups_view(groups@)
                    + parse_groups(cs@.subrange(e as int, n as int)));
            }
            i = e;
        }
    }
    groups
}

/// A name as the parser hands it out: not empty, no white space at either end, no comma.
pub open spec fn is_clean_name(n: Seq<char>) -> bool {
    &&& n.len() > 0
    &&& !spec_is_white_space(n[0])
    &&& !spec_is_white_space(n[n.len() - 1])
    &&& forall|i: int| 0 <= i < n.len() ==> #[trigger] n[i] != ','
}

/// What every group the parser hands out looks like: a single name that is clean and holds
/// no `[`, or a non-empty list of clean names that hold no `]`.
pub open spec fn group_well_formed(g: GroupView) -> bool {
    match g {
        GroupView::Single(n) => is_clean_name(n) && all_in_class(n, CharClass::NameChar),
        GroupView::Bracketed(names) => names.len() > 0 && forall|j: int|
            0 <= j < names.len() ==> is_clean_name(#[trigger] names[j]) && all_in_class(
                names[j],
                CharClass::NotClose,
            ),
    }
}

/// The names of a bracketed group are clean and keep the class of the group's characters.
pub proof fn lemma_names_in_clean(s: Seq<char>, k: CharClass)
    requires
        all_in_class(s, k),
    ensures
        forall|j: int|
            0 <= j < names_in(s).len() ==> is_clean_name(#[trigger] names_in(s)[j])
                && all_in_class(names_in(s)[j], k),
    decreases s.len(),
{
    let j = count_while(s, CharClass::NotComma);
    lemma_count_while_facts(s, CharClass::NotComma);
    let piece = s.subrange(0, j as int);
    assert(all_in_class(piece, k));
    assert(all_in_class(piece, CharClass::NotComma));
    lemma_trim_keeps_class(piece, k);
    lemma_trim_keeps_class(piece, CharClass::NotComma);
    lemma_trim_facts(piece);
    let name = trim(piece);
    let here = if name.len() > 0 {
        seq![name]
    } else {
        Seq::<Seq<char>>::empty()
    };
    if j < s.len() {
        let tail = s.subrange(j + 1 as int, s.len() as int);
        assert(all_in_class(tail, k));
        lemma_names_in_clean(tail, k);
        assert(names_in(s) == here + names_in(tail));
        assert forall|i: int| 0 <= i < names_in(s).len() implies is_clean_name(
            #[trigger] names_in(s)[i],
        ) && all_in_class(names_in(s)[i], k) by {
            if i >= here.len() {
                assert(names_in(s)[i] == names_in(tail)[i - here.len()]);
            }
        }
    }
}

/// Every group that the event list describes is well formed: a clean single name with no `[`,
/// or a non-empty list of clean names with no `]`.
pub proof fn lemma_parsed_groups_well_formed(s: Seq<char>)
    ensures
        forall|i: int|
            0 <= i < parse_groups(s).len() ==> group_well_formed(#[trigger] parse_groups(s)[i]),
    decreases s.len(),
{
    let lead = count_while(s, CharClass::Separator);
    lemma_count_while_facts(s, CharClass::Separator);
    if lead < s.len() {
        let t = s.subrange(lead as int, s.len() as int);
        if t[0] == '[' {
            let body = t.subrange(1, t.len() as int);
            let j = count_while(body, CharClass::NotClose);
            lemma_count_while_facts(body, CharClass::NotClose);
            let inner = body.subrange(0, j as int);
            assert(all_in_class(inner, CharClass::NotClose));
            lemma_names_in_clean(inner, CharClass::NotClose);
            let names = names_in(inner);
            let here = if names.len() > 0 {
                seq![GroupView::Bracketed(names)]
            } else {
                Seq::<GroupView>::empty()
            };
            if j < body.len() {
                let rest = body.subrange(j + 1 as int, body.len() as int);
                lemma_parsed_groups_well_formed(rest);
                assert(parse_groups(s) == here + parse_groups(rest));
                assert forall|i: int| 0 <= i < parse_groups(s).len() implies group_well_formed(
                    #[trigger] parse_groups(s)[i],
                ) by {
                    if i >= here.len() {
                        assert(parse_groups(s)[i] == parse_groups(rest)[i - here.len()]);
                    }
                }
            }
        } else {
            let j = count_while(t, CharClass::NameChar);
            lemma_count_while_facts(t, CharClass::NameChar);
            let piece = t.subrange(0, j as int);
            assert(all_in_class(piece, CharClass::NameChar));
            lemma_trim_keeps_class(piece, CharClass::NameChar);
            lemma_trim_facts(piece);
            let name = trim(piece);
            assert(forall|m: int| 0 <= m < name.len() ==> in_class(#[trigger] name[m], CharClass::NameChar));
            let here = if name.len() > 0 {
                seq![GroupView::Single(name)]
            } else {
                Seq::<GroupView>::empty()
            };
            assert(t[0] == s[lead as int]);
            let rest = t.subrange(j as int, t.len() as int);
            lemma_parsed_groups_well_formed(rest);
            assert(parse_groups(s) == here + parse_groups(rest));
            assert forall|i: int| 0 <= i < parse_groups(s).len() implies group_well_formed(
                #[trigger] parse_groups(s)[i],
            ) by {
                if i >= here.len() {
                    assert(parse_groups(s)[i] == parse_groups(rest)[i - here.len()]);
                }
            }
        }
    }
}

proof fn lemma_skip_separator(s: Seq<char>)
    requires
        s.len() > 0,
        in_class(s[0], CharClass::Separator),
    ensures
        parse_groups(s) == parse_groups(s.subrange(1, s.len() as int)),
{
    let s1 = s.subrange(1, s.len() as int);
    assert(count_while(s, CharClass::Separator) == 1 + count_while(s1, CharClass::Separator));
    let lead = count_while(s, CharClass::Separator);
    let lead1 = count_while(s1, CharClass::Separator);
    if lead < s.len() {
        assert(s.subrange(lead as int, s.len() as int) =~= s1.subrange(lead1 as int, s1.len() as int));
    }
}

proof fn lemma_names_skip_separator(s: Seq<char>)
    requires
        s.len() > 0,
        in_class(s[0], CharClass::Separator),
    ensures
        names_in(s) == names_in(s.subrange(1, s.len() as int)),
{
    let s1 = s.subrange(1, s.len() as int);
    lemma_count_while_facts(s, CharClass::NotComma);
    lemma_count_while_facts(s1, CharClass::NotComma);
    if s[0] == ',' {
        assert(count_while(s, CharClass::NotComma) == 0);
        assert(s.subrange(0, 0) =~= Seq::<char>::empty());
        lemma_trim_empty();
    } else {
        let j = count_while(s, CharClass::NotComma);
        let j1 = count_while(s1, CharClass::NotComma);
        assert(j == 1 + j1);
        let piece = s.subrange(0, j as int);
        assert(piece[0] == s[0]);
        lemma_trim_drops_leading_white_space(piece);
        assert(piece.subrange(1, piece.len() as int) =~= s1.subrange(0, j1 as int));
        if j < s.len() {
            assert(s.subrange(j + 1 as int, s.len() as int) =~= s1.subrange(
                j1 + 1 as int,
                s1.len() as int,
            ));
        }
    }
}

/// The single group of each name.
pub open spec fn singles(names: Seq<Seq<char>>) -> Seq<GroupView> {
    names.map_values(|n: Seq<char>| GroupView::Single(n))
}

/// Without brackets, top-level commas separate groups: each comma-separated piece of the list,
/// trimmed, is a group of its own, and pieces that trim to nothing are left out.
pub proof fn lemma_commas_separate_groups(s: Seq<char>)
    requires
        forall|i: int| 0 <= i < s.len() ==> #[trigger] s[i] != '[',
    ensures
        parse_groups(s) == singles(names_in(s)),
    decreases s.len(),
{
    if s.len() == 0 {
        lemma_trim_empty();
        assert(s.subrange(0, 0) =~= s);
        assert(singles(names_in(s)) =~= Seq::<GroupView>::empty());
    } else if in_class(s[0], CharClass::Separator) {
        let s1 = s.subrange(1, s.len() as int);
        lemma_skip_separator(s);
        lemma_names_skip_separator(s);
        lemma_commas_separate_groups(s1);
    } else {
        assert(count_while(s, CharClass::Separator) == 0);
        let t = s.subrange(0, s.len() as int);
        assert(t =~= s);
        let j = count_while(s, CharClass::NameChar);
        lemma_count_while_facts(s, CharClass::NameChar);
        lemma_count_while_is(s, CharClass::NotComma, j as int);
        let name = trim(s.subrange(0, j as int));
        let here = if name.len() > 0 {
            seq![name]
        } else {
            Seq::<Seq<char>>::empty()
        };
        let rest = s.subrange(j as int, s.len() as int);
        assert(parse_groups(s) == singles(here) + parse_groups(rest));
        if j < s.len() {
            let after = s.subrange(j + 1 as int, s.len() as int);
            assert(rest[0] == ',');
            lemma_skip_separator(rest);
            assert(rest.subrange(1, rest.len() as int) =~= after);
            lemma_commas_separate_groups(after);
            assert(names_in(s) == here + names_in(after));
            assert(singles(here + names_in(after)) =~= singles(here) + singles(names_in(after)));
        } else {
            assert(rest =~= Seq::<char>::empty());
            assert(parse_groups(rest) =~= Seq::<GroupView>::empty());
            assert(names_in(s) == here);
            assert(singles(here) + parse_groups(rest) =~= singles(here));
        }
    }
}

} // verus!
