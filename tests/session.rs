use smokey::session::{App, Config, Screen, TestState};
use smokey::text::{Mark, Stop, StyledUnit};

fn unit(c: &str, mark: Mark) -> StyledUnit {
    StyledUnit { content: c.to_string(), mark }
}

fn fresh_app() -> App {
    App::new(Config::new("/tmp/words".to_string()))
}

#[test]
fn wpm_from_counters() {
    let mut t = TestState::default();
    t.done = 50;
    t.blanks = 2;
    t.mistakes = 1;
    // 12 * 47 / 10 = 56.4 words per minute
    assert_eq!(t.wpm_at(10), Some(5640));
}

#[test]
fn wpm_unavailable_before_first_second() {
    let mut t = TestState::default();
    t.done = 5;
    assert_eq!(t.wpm_at(0), None);
}

#[test]
fn wpm_unavailable_when_over_discounted() {
    let mut t = TestState::default();
    t.done = 2;
    t.blanks = 2;
    t.mistakes = 1;
    assert_eq!(t.wpm_at(5), None);
}

#[test]
fn wpm_rounds_down() {
    let mut t = TestState::default();
    t.done = 1;
    assert_eq!(t.wpm_at(7), Some(171));
}

#[test]
fn deduct_on_correct_position_is_noop() {
    let mut t = TestState::default();
    t.text = vec![unit("a", Mark::Correct), unit("b", Mark::Wrong)];
    t.mistakes = 1;
    t.if_mistake_deduct(0);
    assert_eq!(t.mistakes, 1);
}

#[test]
fn deduct_on_wrong_position_decrements() {
    let mut t = TestState::default();
    t.text = vec![unit("a", Mark::Correct), unit("b", Mark::Wrong)];
    t.mistakes = 1;
    t.if_mistake_deduct(1);
    assert_eq!(t.mistakes, 0);
    t.if_mistake_deduct(1);
    assert_eq!(t.mistakes, 0);
}

#[test]
fn reset_starts_a_fresh_test() {
    let mut app = fresh_app();
    app.cursor_x = 9;
    let mut t = TestState::default();
    t.done = 3;
    t.blanks = 1;
    t.mistakes = 2;
    t.hoarder.push(10);
    let words = vec!["hi".to_string(), "there".to_string()];
    t.reset(&mut app, &words, &vec![Some(Stop::Period), None]);
    assert_eq!(app.cursor_x, 1);
    assert_eq!(t.done, 0);
    assert_eq!(t.blanks, 0);
    assert_eq!(t.mistakes, 0);
    assert_eq!(t.test_length, 9);
    assert_eq!(t.text.len(), 9);
    assert_eq!(t.current_char, 'h');
    assert_eq!(t.fetch(4), "T");
    assert_eq!(t.text[0].mark, Mark::Cursor);
    assert!(t.hoarder.wpms.is_empty());
    assert_eq!(t.hoarder.seconds, 1);
}

#[test]
fn sample_recorded_only_when_due() {
    let mut t = TestState::default();
    t.done = 10;
    t.record_sample(0);
    assert!(t.hoarder.wpms.is_empty());
    t.record_sample(1);
    assert_eq!(t.hoarder.wpms, vec![12000]);
    t.record_sample(1);
    assert_eq!(t.hoarder.wpms, vec![12000]);
    t.record_sample(2);
    assert_eq!(t.hoarder.wpms, vec![12000, 6000]);
}

#[test]
fn update_right_after_reset_records_nothing() {
    let mut app = fresh_app();
    let mut t = TestState::default();
    t.reset(&mut app, &vec!["abc".to_string()], &vec![None]);
    t.update_wpm_history();
    assert!(t.hoarder.wpms.is_empty());
}

#[test]
fn end_shows_results() {
    let mut app = fresh_app();
    let mut t = TestState::default();
    t.reset(&mut app, &vec!["abc".to_string()], &vec![None]);
    t.end(&mut app);
    assert_eq!(app.screen, Screen::Post);
    assert_eq!(t.hoarder.final_wpm, None);
}

#[test]
fn next_char_follows_cursor() {
    let mut t = TestState::default();
    t.text = vec![unit("a", Mark::Correct), unit("b", Mark::Todo)];
    t.done = 1;
    assert_eq!(t.get_next_char(), Some('b'));
    t.set_next_char();
    assert_eq!(t.current_char, 'b');
    t.done = 2;
    assert_eq!(t.get_next_char(), None);
}

#[test]
fn change_replaces_content_keeps_mark() {
    let mut t = TestState::default();
    t.text = vec![unit("a", Mark::Wrong), unit("b", Mark::Todo)];
    t.change(0, "x".to_string());
    assert_eq!(t.fetch(0), "x");
    assert_eq!(t.text[0].mark, Mark::Wrong);
    assert_eq!(t.fetch(1), "b");
}

#[test]
fn config_defaults() {
    let c = Config::new("/data/words".to_string());
    assert_eq!(c.words, "/data/words");
    assert_eq!(c.source, "english");
    assert_eq!(c.length, 15);
    assert!(!c.test_type.punctuation);
    assert_eq!(c.freq_cut_off, 60000);
    let app = App::new(c);
    assert_eq!(app.screen, Screen::Test);
    assert_eq!(app.cursor_x, 1);
    assert_eq!(app.margin, 2);
    assert!(!app.should_quit);
}
