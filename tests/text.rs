use smokey::text::{prepare_test, Mark, SpanIntake, Stop, StyledUnit};

fn contents(t: &[StyledUnit]) -> String {
    t.iter().map(|u| u.content.as_str()).collect()
}

fn words(ws: &[&str]) -> Vec<String> {
    ws.iter().map(|w| w.to_string()).collect()
}

#[test]
fn plain_words_joined_by_spaces() {
    let t = prepare_test(&words(&["ab", "cd", "e"]), &vec![None, None, None]);
    assert_eq!(contents(&t), "ab cd e");
    assert_eq!(t.len(), 7);
    assert_eq!(t[0].mark, Mark::Cursor);
    assert!(t[1..].iter().all(|u| u.mark == Mark::Todo));
    assert!(t.iter().all(|u| u.content.chars().count() == 1));
}

#[test]
fn period_capitalizes_next_word() {
    let t = prepare_test(
        &words(&["hello", "world", "again"]),
        &vec![Some(Stop::Period), Some(Stop::Comma), None],
    );
    assert_eq!(contents(&t), "hello. World, again");
}

#[test]
fn comma_does_not_capitalize() {
    let t = prepare_test(&words(&["a", "b"]), &vec![Some(Stop::Comma), None]);
    assert_eq!(contents(&t), "a, b");
}

#[test]
fn question_capitalizes_next_word() {
    let t = prepare_test(&words(&["why", "not"]), &vec![Some(Stop::Question), None]);
    assert_eq!(contents(&t), "why? Not");
}

#[test]
fn last_word_keeps_its_mark_without_trailing_space() {
    let t = prepare_test(&words(&["end"]), &vec![Some(Stop::Period)]);
    assert_eq!(contents(&t), "end.");
}

#[test]
fn uppercase_may_expand_in_one_unit() {
    let t = prepare_test(&words(&["x", "\u{df}a"]), &vec![Some(Stop::Period), None]);
    assert_eq!(contents(&t), "x. SSa");
    assert_eq!(t[3].content, "SS");
    assert_eq!(t.len(), 5);
}

#[test]
fn empty_word_list_gives_empty_text() {
    let t = prepare_test(&vec![], &vec![]);
    assert!(t.is_empty());
}

#[test]
fn push_styled_char_appends_untouched_unit() {
    let mut v: Vec<StyledUnit> = Vec::new();
    v.push_styled_char('q');
    assert_eq!(v.len(), 1);
    assert_eq!(v[0].content, "q");
    assert_eq!(v[0].mark, Mark::Todo);
}
