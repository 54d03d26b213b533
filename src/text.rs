use vstd::prelude::*;
use crate::capitalize::{poll_spec, signal_spec, Capitalize};

verus! {

/// Display and correctness tag of one position of the target text.
#[derive(Clone, Copy, Debug, PartialEq, Eq, Structural)]
pub enum Mark {
    Todo,
    Correct,
    Wrong,
    Blank,
    Cursor,
}

/// Punctuation mark placed after a word.
#[derive(Clone, Copy, Debug, PartialEq, Eq, Structural)]
pub enum Stop {
    Period,
    Comma,
    Question,
}

/// One addressable position of the target text.
pub struct StyledUnit {
    pub content: String,
    pub mark: Mark,
}

impl View for StyledUnit {
    type V = (Seq<char>, Mark);

    open spec fn view(&self) -> (Seq<char>, Mark) {
        (self.content@, self.mark)
    }
}

/// What the units of a sequence hold and how they are tagged.
pub open spec fn units_view(v: Seq<StyledUnit>) -> Seq<(Seq<char>, Mark)> {
    v.map_values(|u: StyledUnit| u@)
}

/// Appends single characters as untouched units.
pub trait SpanIntake {
    spec fn styled_units(&self) -> Seq<(Seq<char>, Mark)>;

    fn push_styled_char(&mut self, c: char)
        ensures
            final(self).styled_units() == old(self).styled_units().push((seq![c], Mark::Todo)),
    ;
}

impl SpanIntake for Vec<StyledUnit> {
    open spec fn styled_units(&self) -> Seq<(Seq<char>, Mark)> {
        units_view(self@)
    }

    fn push_styled_char(&mut self, c: char) {
        let content = char_to_string(c);
        self.push(StyledUnit { content, mark: Mark::Todo });
        assert(units_view(self@) =~= units_view(old(self)@).push((seq![c], Mark::Todo)));
    }
}

/// Relies on `char::to_string`: the string of exactly that character.
#[verifier::external_body]
fn char_to_string(c: char) -> (r: String)
    ensures
        r@ == seq![c],
{
    c.to_string()
}

/// Upper-case form of a character under Unicode's case mapping.
pub uninterp spec fn upper_of(c: char) -> Seq<char>;

/// Relies on `char::to_uppercase`: the mapping depends on the character alone.
#[verifier::external_body]
fn uppercase(c: char) -> (r: String)
    ensures
        r@ == upper_of(c),
{
    c.to_uppercase().collect::<String>()
}

/// Sentence-ending marks schedule a capital letter.
pub open spec fn ends_sentence(p: Option<Stop>) -> bool {
    p == Some(Stop::Period) || p == Some(Stop::Question)
}

pub open spec fn stop_char(p: Stop) -> char {
    match p {
        Stop::Period => '.',
        Stop::Comma => ',',
        Stop::Question => '?',
    }
}

/// Scheduler state before the word at index `i` is placed.
pub open spec fn sched_before(stops: Seq<Option<Stop>>, i: nat) -> (u8, u8)
    decreases i,
{
    if i == 0 {
        (0u8, 0u8)
    } else {
        let s = poll_spec(sched_before(stops, (i - 1) as nat)).1;
        if ends_sentence(stops[i - 1]) {
            signal_spec(s)
        } else {
            s
        }
    }
}

/// Whether the word at index `i` is capitalized.
pub open spec fn capitalized(stops: Seq<Option<Stop>>, i: nat) -> bool {
    poll_spec(sched_before(stops, i)).0
}

/// Scheduler state before word `i`: a capital is due exactly when the previous
/// word ended a sentence, and nothing is ever left pending.
proof fn lemma_sched_before(stops: Seq<Option<Stop>>, i: nat)
    requires
        i <= stops.len(),
    ensures
        sched_before(stops, i) == (if i > 0 && ends_sentence(stops[i - 1]) {
            (1u8, 0u8)
        } else {
            (0u8, 0u8)
        }),
    decreases i,
{
    if i > 0 {
        lemma_sched_before(stops, (i - 1) as nat);
    }
}

/// A generated word is capitalized exactly when the word before it ends with a
/// period or a question mark; the first word never is.
pub proof fn lemma_capital_follows_sentence_end(stops: Seq<Option<Stop>>, i: nat)
    requires
        i <= stops.len(),
    ensures
        capitalized(stops, i) == (i > 0 && ends_sentence(stops[i - 1])),
{
    lemma_sched_before(stops, i);
}

/// One unit per character of `w`; the first is upper-cased when `cap` holds.
pub open spec fn word_units(w: Seq<char>, cap: bool) -> Seq<Seq<char>> {
    Seq::new(w.len(), |j: int| if j == 0 && cap { upper_of(w[0]) } else { seq![w[j]] })
}

/// Units of word `i`: its characters, its punctuation, and a separating space
/// unless it is the last word.
pub open spec fn piece(words: Seq<Seq<char>>, stops: Seq<Option<Stop>>, i: nat) -> Seq<Seq<char>> {
    let p = match stops[i as int] {
        Some(m) => seq![seq![stop_char(m)]],
        None => Seq::empty(),
    };
    let sep = if i + 1 < words.len() { seq![seq![' ']] } else { Seq::empty() };
    word_units(words[i as int], capitalized(stops, i)) + p + sep
}

/// Contents of the units generated for the first `k` words.
pub open spec fn text_units(words: Seq<Seq<char>>, stops: Seq<Option<Stop>>, k: nat) -> Seq<Seq<char>>
    decreases k,
{
    if k == 0 {
        Seq::empty()
    } else {
        text_units(words, stops, (k - 1) as nat) + piece(words, stops, (k - 1) as nat)
    }
}

/// Contents of the whole target text for `words` and the marks after them.
pub open spec fn target_units(words: Seq<Seq<char>>, stops: Seq<Option<Stop>>) -> Seq<Seq<char>> {
    text_units(words, stops, words.len())
}

/// Views of a sequence of strings.
pub open spec fn strings_view(v: Seq<String>) -> Seq<Seq<char>> {
    v.map_values(|s: String| s@)
}

/// The generated text: the given contents, the first unit tagged as the cursor
/// and every other one untouched.
pub open spec fn is_fresh_text(t: Seq<StyledUnit>, contents: Seq<Seq<char>>) -> bool {
    &&& t.len() == contents.len()
    &&& forall|j: int| 0 <= j < t.len() ==> (#[trigger] t[j]).content@ == contents[j]
    &&& forall|j: int|
        0 <= j < t.len() ==> (#[trigger] t[j]).mark == (if j == 0 {
            Mark::Cursor
        } else {
            Mark::Todo
        })
}

/// Builds the target text from the words of one test, in order, and the mark
/// (if any) that follows each of them.
pub fn prepare_test(words: &Vec<String>, stops: &Vec<Option<Stop>>) -> (r: Vec<StyledUnit>)
    requires
        words@.len() == stops@.len(),
    ensures
        is_fresh_text(r@, target_units(strings_view(words@), stops@)),
{
    let ghost ws = strings_view(words@);
    let mut out: Vec<StyledUnit> = Vec::new();
    let mut cap = Capitalize::default();
    let n = words.len();
    let mut i: usize = 0;
    while i < n
        invariant
            n == words@.len(),
            n == stops@.len(),
            ws == strings_view(words@),
            0 <= i <= n,
            cap@ == sched_before(stops@, i as nat),
            units_view(out@) == text_units(ws, stops@, i as nat).map_values(
                |c: Seq<char>| (c, Mark::Todo),
            ),
        decreases n - i,
    {
        let ghost before = units_view(out@);
        let upper = cap.capitalize();
        let w = words[i].as_str();
        let len = w.unicode_len();
        let mut j: usize = 0;
        while j < len
            invariant
                len == w@.len(),
                w@ == ws[i as int],
                0 <= j <= len,
                upper == capitalized(stops@, i as nat),
                units_view(out@) == before + word_units(w@, upper).subrange(0, j as int).map_values(
                    |c: Seq<char>| (c, Mark::Todo),
                ),
            decreases len - j,
        {
            let c = w.get_char(j);
            if j == 0 && upper {
                let content = uppercase(c);
                out.push(StyledUnit { content, mark: Mark::Todo });
            } else {
                out.push_styled_char(c);
            }
            assert(word_units(w@, upper).subrange(0, j + 1) =~= word_units(w@, upper).subrange(
                0,
                j as int,
            ).push(word_units(w@, upper)[j as int]));
            assert(units_view(out@) =~= before + word_units(w@, upper).subrange(
                0,
                j + 1,
            ).map_values(|c: Seq<char>| (c, Mark::Todo)));
            j = j + 1;
        }
        assert(word_units(w@, upper).subrange(0, len as int) =~= word_units(w@, upper));
        match stops[i] {
            Some(m) => {
                let c = match m {
                    Stop::Period => '.',
                    Stop::Comma => ',',
                    Stop::Question => '?',
                };
                out.push_styled_char(c);
                if m == Stop::Period || m == Stop::Question {
                    cap.signal();
                }
            },
            None => {},
        }
        if i + 1 < n {
            out.push_styled_char(' ');
        }
        assert(units_view(out@) =~= text_units(ws, stops@, (i + 1) as nat).map_values(
            |c: Seq<char>| (c, Mark::Todo),
        ));
        i = i + 1;
    }
    let ghost t = target_units(ws, stops@);
    let ghost pre = out@;
    assert(t.len() == units_view(pre).len());
    assert forall|j: int| 0 <= j < pre.len() implies (#[trigger] pre[j]).content@ == t[j]
        && pre[j].mark == Mark::Todo by {
        assert(units_view(pre)[j] == pre[j]@);
        assert(units_view(pre)[j] == (t[j], Mark::Todo));
    }
    if out.len() > 0 {
        let first = out[0].content.clone();
        out.set(0, StyledUnit { content: first, mark: Mark::Cursor });
    }
    out
}

} // verus!
