use vstd::prelude::*;
use std::time::Instant;
use crate::hoarder::{due_time, push_result, WpmHoarder};
use crate::text::{
    is_fresh_text, prepare_test, strings_view, target_units, text_units, units_view, word_units,
    Mark, Stop, StyledUnit,
};

verus! {

/// Which screen the application shows.
#[derive(Clone, Copy, Debug, PartialEq, Eq, Structural)]
pub enum Screen {
    Test,
    Post,
}

/// Kind of test to generate.
#[derive(Clone, Copy, Debug, PartialEq, Eq, Structural)]
pub struct TestType {
    pub punctuation: bool,
}

/// Settings of the typing test.
pub struct Config {
    /// Directory that holds the word lists.
    pub words: String,
    pub source: String,
    pub length: usize,
    pub test_type: TestType,
    pub freq_cut_off: usize,
}

impl Config {
    /// Default settings, with word lists kept under the directory `words`.
    pub fn new(words: String) -> (r: Config)
        ensures
            r.words == words,
            r.source@ == seq!['e', 'n', 'g', 'l', 'i', 's', 'h'],
            r.length == 15,
            r.test_type.punctuation == false,
            r.freq_cut_off == 60000,
    {
        let source = String::from_str("english");
        proof {
            reveal_strlit("english");
        }
        Config {
            words,
            source,
            length: 15,
            test_type: TestType { punctuation: false },
            freq_cut_off: 60000,
        }
    }
}

/// State of the application around the test.
pub struct App {
    pub screen: Screen,
    pub should_quit: bool,
    pub cursor_x: u16,
    pub margin: u16,
    pub config: Config,
}

impl App {
    pub fn new(config: Config) -> (r: Self)
        ensures
            r.screen == Screen::Test,
            r.should_quit == false,
            r.cursor_x == 1,
            r.margin == 2,
            r.config == config,
    {
        App { screen: Screen::Test, should_quit: false, cursor_x: 1, margin: 2, config }
    }
}

/// Speed in hundredths of a word per minute: 12 words per minute for each
/// correct character per second (five characters to a word).
/// `None` while not available: before the first second, when more positions
/// are discounted than were typed, or when the value exceeds `u64`.
pub open spec fn speed(done: int, blanks: int, mistakes: int, elapsed: int) -> Option<u64> {
    let v = 1200 * (done - blanks - mistakes) / elapsed;
    if elapsed > 0 && blanks + mistakes <= done && v <= u64::MAX {
        Some(v as u64)
    } else {
        None
    }
}

/// Progress of one typing test.
pub struct TestState {
    /// Positions advanced past.
    pub done: usize,
    /// Filler positions left by mistakes appended at the end of a word.
    pub blanks: usize,
    /// Characters currently marked wrong.
    pub mistakes: u32,
    pub current_char: char,
    pub word_amount: u32,
    pub begining: Instant,
    pub source: String,
    pub text: Vec<StyledUnit>,
    pub test_length: usize,
    pub hoarder: WpmHoarder,
}

/// Speed of a test state after `elapsed` seconds.
pub open spec fn speed_of(t: TestState, elapsed: int) -> Option<u64> {
    speed(t.done as int, t.blanks as int, t.mistakes as int, elapsed)
}

/// `after` is `before` with one sampling step taken at `elapsed` seconds: a
/// sample is pushed when one is due and the speed is available.
pub open spec fn sampled(before: TestState, after: TestState, elapsed: u64) -> bool {
    &&& after.hoarder.capacity == before.hoarder.capacity
    &&& after.hoarder.final_wpm == before.hoarder.final_wpm
    &&& (after.hoarder.wpms@, after.hoarder.seconds as int) == (match speed_of(before, elapsed as int) {
        Some(w) if elapsed >= due_time(before.hoarder.seconds, before.hoarder.wpms@.len()) =>
            push_result(before.hoarder.wpms@, before.hoarder.seconds, before.hoarder.capacity, w),
        _ => (before.hoarder.wpms@, before.hoarder.seconds as int),
    })
}

/// Fields of a test state other than the speed history.
pub open spec fn same_progress(a: TestState, b: TestState) -> bool {
    &&& a.done == b.done
    &&& a.blanks == b.blanks
    &&& a.mistakes == b.mistakes
    &&& a.current_char == b.current_char
    &&& a.word_amount == b.word_amount
    &&& a.begining == b.begining
    &&& a.source == b.source
    &&& a.text == b.text
    &&& a.test_length == b.test_length
}

impl Default for TestState {
    fn default() -> (r: Self)
        ensures
            r.wf(),
            r.text@.len() == 0,
            r.done == 0,
            r.blanks == 0,
            r.mistakes == 0,
            r.test_length == 0,
            r.current_char == ' ',
            r.word_amount == 15,
            r.hoarder.wpms@.len() == 0,
            r.hoarder.capacity == 32,
            r.hoarder.seconds == 1,
            r.hoarder.final_wpm.is_none(),
    {
        TestState {
            text: Vec::new(),
            begining: Instant::now(),
            done: 0,
            blanks: 0,
            mistakes: 0,
            source: String::from_str("storage/words/english"),
            test_length: 0,
            current_char: ' ',
            word_amount: 15,
            hoarder: WpmHoarder::new(32),
        }
    }
}

impl TestState {
    /// The speed history is well formed.
    pub open spec fn wf(&self) -> bool {
        self.hoarder.wf()
    }

    /// Speed after `elapsed` whole seconds.
    pub fn wpm_at(&self, elapsed: u64) -> (r: Option<u64>)
        ensures
            r == speed_of(*self, elapsed as int),
    {
        let discounted: u128 = self.blanks as u128 + self.mistakes as u128;
        if elapsed == 0 || discounted > self.done as u128 {
            return None;
        }
        let correct: u128 = self.done as u128 - discounted;
        assert(1200 * correct <= 1200 * 0xffff_ffff_ffff_ffffu128) by (nonlinear_arith)
            requires
                correct <= 0xffff_ffff_ffff_ffffu128,
        ;
        let v: u128 = 1200 * correct / (elapsed as u128);
        if v > u64::MAX as u128 {
            None
        } else {
            Some(v as u64)
        }
    }

    /// Speed so far, by the clock.
    pub fn calculate_wpm(&self) -> (r: Option<u64>)
        ensures
            exists|e: u64| r == speed_of(*self, e as int),
    {
        let elapsed: u64 = self.begining.elapsed().as_secs();
        self.wpm_at(elapsed)
    }

    /// Starts a new test on `words`, each followed by the mark in `stops`:
    /// fresh text, progress and history, and the clock restarted.
    pub fn reset(&mut self, app: &mut App, words: &Vec<String>, stops: &Vec<Option<Stop>>)
        requires
            old(self).wf(),
            words@.len() == stops@.len(),
            words@.len() >= 1,
            words@[0]@.len() >= 1,
        ensures
            final(self).wf(),
            final(app).cursor_x == 1,
            final(app).screen == old(app).screen,
            final(app).should_quit == old(app).should_quit,
            final(app).margin == old(app).margin,
            final(app).config == old(app).config,
            is_fresh_text(final(self).text@, target_units(strings_view(words@), stops@)),
            final(self).test_length == final(self).text@.len(),
            final(self).done == 0,
            final(self).blanks == 0,
            final(self).mistakes == 0,
            final(self).current_char == words@[0]@[0],
            final(self).hoarder.wpms@.len() == 0,
            final(self).hoarder.seconds == 1,
            final(self).hoarder.capacity == old(self).hoarder.capacity,
            final(self).hoarder.final_wpm == old(self).hoarder.final_wpm,
            final(self).word_amount == old(self).word_amount,
            final(self).source == old(self).source,
    {
        app.cursor_x = 1;
        self.blanks = 0;
        self.done = 0;
        self.text = prepare_test(words, stops);
        self.begining = Instant::now();
        self.mistakes = 0;
        proof {
            lemma_first_unit(strings_view(words@), stops@, words@.len());
        }
        self.current_char = self.text[0].content.as_str().get_char(0);
        self.test_length = self.text.len();
        self.hoarder.reset();
    }

    /// Ends the test: the application shows the results and the speed is frozen.
    pub fn end(&mut self, app: &mut App)
        ensures
            final(app).screen == Screen::Post,
            final(app).should_quit == old(app).should_quit,
            final(app).cursor_x == old(app).cursor_x,
            final(app).margin == old(app).margin,
            final(app).config == old(app).config,
            exists|e: u64| final(self).hoarder.final_wpm == speed_of(*old(self), e as int),
            same_progress(*final(self), *old(self)),
            final(self).hoarder.wpms == old(self).hoarder.wpms,
            final(self).hoarder.seconds == old(self).hoarder.seconds,
            final(self).hoarder.capacity == old(self).hoarder.capacity,
    {
        app.screen = Screen::Post;
        self.hoarder.final_wpm = self.calculate_wpm();
    }

    /// One sampling step at `elapsed` whole seconds since the start.
    pub fn record_sample(&mut self, elapsed: u64)
        requires
            old(self).wf(),
            old(self).hoarder.can_push(),
        ensures
            final(self).wf(),
            sampled(*old(self), *final(self), elapsed),
            same_progress(*final(self), *old(self)),
    {
        if self.hoarder.due_at(elapsed) {
            match self.wpm_at(elapsed) {
                Some(w) => self.hoarder.push(w),
                None => {},
            }
        }
    }

    /// One sampling step by the clock; meant to be polled once per tick.
    pub fn update_wpm_history(&mut self)
        requires
            old(self).wf(),
            old(self).hoarder.can_push(),
        ensures
            final(self).wf(),
            exists|e: u64| sampled(*old(self), *final(self), e),
            same_progress(*final(self), *old(self)),
    {
        let elapsed: u64 = self.begining.elapsed().as_secs();
        self.record_sample(elapsed);
    }

    /// Deducts the mistake at `index` when that position is marked wrong.
    pub fn if_mistake_deduct(&mut self, index: usize)
        requires
            index < old(self).text@.len(),
        ensures
            final(self).mistakes == (if old(self).text@[index as int].mark == Mark::Wrong
                && old(self).mistakes > 0 {
                old(self).mistakes - 1
            } else {
                old(self).mistakes as int
            }),
            final(self).done == old(self).done,
            final(self).blanks == old(self).blanks,
            final(self).text == old(self).text,
            final(self).test_length == old(self).test_length,
            final(self).current_char == old(self).current_char,
            final(self).hoarder == old(self).hoarder,
    {
        if self.text[index].mark == Mark::Wrong && self.mistakes > 0 {
            self.mistakes = self.mistakes - 1;
        }
    }

    /// Takes the character expected at the cursor.
    pub fn set_next_char(&mut self)
        requires
            old(self).done < old(self).text@.len(),
            old(self).text@[old(self).done as int].content@.len() >= 1,
        ensures
            final(self).current_char == old(self).text@[old(self).done as int].content@[0],
            final(self).done == old(self).done,
            final(self).blanks == old(self).blanks,
            final(self).mistakes == old(self).mistakes,
            final(self).text == old(self).text,
            final(self).test_length == old(self).test_length,
            final(self).hoarder == old(self).hoarder,
    {
        self.current_char = self.text[self.done].content.as_str().get_char(0);
    }

    /// The character expected at the cursor; `None` once the text is done.
    pub fn get_next_char(&mut self) -> (r: Option<char>)
        ensures
            *final(self) == *old(self),
            r == (if old(self).done < old(self).text@.len()
                && old(self).text@[old(self).done as int].content@.len() >= 1 {
                Some(old(self).text@[old(self).done as int].content@[0])
            } else {
                None
            }),
    {
        if self.done >= self.text.len() {
            return None;
        }
        let s = self.text[self.done].content.as_str();
        if s.unicode_len() == 0 {
            None
        } else {
            Some(s.get_char(0))
        }
    }

    /// Content of the unit at `index`.
    pub fn fetch(&self, index: usize) -> (r: &str)
        requires
            index < self.text@.len(),
        ensures
            r@ == self.text@[index as int].content@,
    {
        self.text[index].content.as_str()
    }

    /// Replaces the content of the unit at `index`, keeping its mark.
    pub fn change(&mut self, index: usize, item: String)
        requires
            index < old(self).text@.len(),
        ensures
            units_view(final(self).text@) == units_view(old(self).text@).update(
                index as int,
                (item@, old(self).text@[index as int].mark),
            ),
            final(self).done == old(self).done,
            final(self).blanks == old(self).blanks,
            final(self).mistakes == old(self).mistakes,
            final(self).test_length == old(self).test_length,
            final(self).current_char == old(self).current_char,
            final(self).hoarder == old(self).hoarder,
    {
        let mark = self.text[index].mark;
        self.text.set(index, StyledUnit { content: item, mark });
        assert(units_view(self.text@) =~= units_view(old(self).text@).update(
            index as int,
            (item@, mark),
        ));
    }
}

/// The generated text opens with the first character of the first word, never
/// capitalized since no mark precedes it.
proof fn lemma_first_unit(words: Seq<Seq<char>>, stops: Seq<Option<Stop>>, k: nat)
    requires
        1 <= k <= words.len(),
        k <= stops.len(),
        words[0].len() >= 1,
    ensures
        text_units(words, stops, k).len() >= 1,
        text_units(words, stops, k)[0] == seq![words[0][0]],
    decreases k,
{
    if k > 1 {
        lemma_first_unit(words, stops, (k - 1) as nat);
    } else {
        assert(text_units(words, stops, 0) == Seq::<Seq<char>>::empty());
        assert(word_units(words[0], false)[0] == seq![words[0][0]]);
    }
}

} // verus!
