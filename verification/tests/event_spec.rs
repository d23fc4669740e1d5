use threadstat::event_spec::{parse_event_groups, EventGroupSpec};
use threadstat::text::is_white_space;

fn show(groups: &[EventGroupSpec]) -> Vec<Vec<String>> {
    groups
        .iter()
        .map(|g| match g {
            EventGroupSpec::Single(n) => vec![format!("single:{n}")],
            EventGroupSpec::Bracketed(ns) => ns.iter().map(|n| format!("group:{n}")).collect(),
        })
        .collect()
}

#[test]
fn doc_example() {
    let g = parse_event_groups("event1,[event2,event3],event4");
    assert_eq!(
        show(&g),
        vec![
            vec!["single:event1".to_string()],
            vec!["group:event2".to_string(), "group:event3".to_string()],
            vec!["single:event4".to_string()],
        ]
    );
}

#[test]
fn commas_separate_groups() {
    let g = parse_event_groups(" a , b,,c ");
    assert_eq!(show(&g), vec![vec!["single:a"], vec!["single:b"], vec!["single:c"]]);
}

#[test]
fn empty_and_blank_lists_have_no_groups() {
    assert!(parse_event_groups("").is_empty());
    assert!(parse_event_groups(" ,, \t").is_empty());
    assert!(parse_event_groups("[]").is_empty());
    assert!(parse_event_groups("[ , ]").is_empty());
}

#[test]
fn unclosed_bracket_runs_to_the_end() {
    let g = parse_event_groups("x,[a, b");
    assert_eq!(show(&g), vec![vec!["single:x"], vec!["group:a", "group:b"]]);
}

#[test]
fn bracket_directly_after_a_name_starts_a_group() {
    let g = parse_event_groups("a[b]c");
    assert_eq!(show(&g), vec![vec!["single:a"], vec!["group:b"], vec!["single:c"]]);
}

#[test]
fn names_are_trimmed_of_unicode_white_space() {
    let g = parse_event_groups("\u{a0}cycles\u{3000},[ in\u{2003}st ]");
    assert_eq!(show(&g), vec![vec!["single:cycles"], vec!["group:in\u{2003}st"]]);
}

#[test]
fn event_names_keep_modifiers() {
    let g = parse_event_groups("cycles:u,[instructions:k,branches]");
    assert_eq!(
        show(&g),
        vec![vec!["single:cycles:u"], vec!["group:instructions:k", "group:branches"]]
    );
}

#[test]
fn white_space_matches_std() {
    for c in (0u32..=0x10ffff).filter_map(char::from_u32) {
        assert_eq!(is_white_space(c), c.is_whitespace(), "{:?}", c);
    }
}
