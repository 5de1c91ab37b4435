//! A run of text, wrapped at word boundaries where a width is set.

use crate::ui::lines::{
    chars_of, lemma_longest_bounds, lines_can_fit, lines_fit, lines_grid, lines_view, longest,
    measure_lines, render_lines, string_from_chars,
};
use crate::ui::rendering::{same_layout, Canvas, IntoWidget, Widget};
use crate::ui::tree::AnyWidget;
use crate::ui::layout::larger;
use vstd::prelude::*;

verus! {

/// Text shown from the top-left corner of its allocation. With a maximum
/// width it is broken into lines between words.
pub struct Text {
    pub text: String,
    pub max_width: Option<u16>,
}

/// The characters that separate words: those with the Unicode property
/// White_Space.
pub open spec fn is_space(c: char) -> bool {
    let code = c as u32;
    ||| 0x09 <= code <= 0x0d
    ||| code == 0x20
    ||| code == 0x85
    ||| code == 0xa0
    ||| code == 0x1680
    ||| 0x2000 <= code <= 0x200a
    ||| code == 0x2028
    ||| code == 0x2029
    ||| code == 0x202f
    ||| code == 0x205f
    ||| code == 0x3000
}

/// Tells whether `c` separates words.
pub fn is_whitespace(c: char) -> (b: bool)
    ensures
        b == is_space(c),
{
    let code = c as u32;
    (0x09 <= code && code <= 0x0d) || code == 0x20 || code == 0x85 || code == 0xa0 || code
        == 0x1680 || (0x2000 <= code && code <= 0x200a) || code == 0x2028 || code == 0x2029 || code
        == 0x202f || code == 0x205f || code == 0x3000
}

/// `cur` as a list of words: itself where it holds a character, else none.
pub open spec fn word_if_any(cur: Seq<char>) -> Seq<Seq<char>> {
    if cur.len() > 0 {
        seq![cur]
    } else {
        Seq::empty()
    }
}

/// The words of `cur` followed by `s`, where `cur` is the beginning of a word
/// that `s` continues.
pub open spec fn words_from(s: Seq<char>, cur: Seq<char>) -> Seq<Seq<char>>
    decreases s.len(),
{
    if s.len() == 0 {
        word_if_any(cur)
    } else if is_space(s[0]) {
        word_if_any(cur) + words_from(s.drop_first(), Seq::empty())
    } else {
        words_from(s.drop_first(), cur.push(s[0]))
    }
}

/// The words of `s`: its maximal runs of characters that are not white space.
pub open spec fn split_words(s: Seq<char>) -> Seq<Seq<char>> {
    words_from(s, Seq::empty())
}

/// The lines that greedy wrapping makes of `words[k..]` after the line `cur`
/// was begun: a word joins the current line, after one space, while the line
/// stays within `max` characters, and begins a new line otherwise. A line that
/// has no word yet takes the next word whatever its length.
pub open spec fn wrap_from(words: Seq<Seq<char>>, k: int, cur: Seq<char>, max: int) -> Seq<
    Seq<char>,
>
    decreases words.len() - k,
{
    if k < 0 || k >= words.len() {
        word_if_any(cur)
    } else if cur.len() == 0 {
        wrap_from(words, k + 1, words[k], max)
    } else if cur.len() + 1 + words[k].len() <= max {
        wrap_from(words, k + 1, cur + seq![' '] + words[k], max)
    } else {
        seq![cur] + wrap_from(words, k + 1, words[k], max)
    }
}

/// The words of `s` wrapped greedily into lines of at most `max` characters.
pub open spec fn wrap(s: Seq<char>, max: int) -> Seq<Seq<char>> {
    wrap_from(split_words(s), 0, Seq::empty(), max)
}

/// Every one of `lines` has at most `bound` characters.
pub open spec fn all_within(lines: Seq<Seq<char>>, bound: int) -> bool {
    forall|j: int| 0 <= j < lines.len() ==> (#[trigger] lines[j]).len() <= bound
}

/// The words of a text are no more and no longer than the text has
/// characters, counting the word that was begun before it.
pub proof fn lemma_words_within(s: Seq<char>, cur: Seq<char>)
    ensures
        words_from(s, cur).len() <= s.len() + 1,
        cur.len() == 0 ==> words_from(s, cur).len() <= s.len(),
        all_within(words_from(s, cur), (cur.len() + s.len()) as int),
    decreases s.len(),
{
    if s.len() > 0 {
        let rest = s.drop_first();
        if is_space(s[0]) {
            lemma_words_within(rest, Seq::empty());
            let tail = words_from(rest, Seq::empty());
            assert(words_from(s, cur) == word_if_any(cur) + tail);
            assert forall|j: int| 0 <= j < words_from(s, cur).len() implies (#[trigger] words_from(
                s,
                cur,
            )[j]).len() <= cur.len() + s.len() by {
                if j >= word_if_any(cur).len() {
                    assert(words_from(s, cur)[j] == tail[j - word_if_any(cur).len()]);
                }
            }
        } else {
            lemma_words_within(rest, cur.push(s[0]));
        }
    }
}

/// Wrapping makes no more lines than there are words left and a line begun,
/// and no line longer than `bound`, where the words, the line begun and the
/// width are all within `bound`.
pub proof fn lemma_wrap_within(words: Seq<Seq<char>>, k: int, cur: Seq<char>, max: int, bound: int)
    requires
        0 <= k <= words.len(),
        all_within(words, bound),
        cur.len() <= bound,
        max <= bound,
    ensures
        wrap_from(words, k, cur, max).len() <= words.len() - k + 1,
        cur.len() == 0 && k < words.len() ==> wrap_from(words, k, cur, max).len() <= words.len()
            - k,
        cur.len() == 0 && k >= words.len() ==> wrap_from(words, k, cur, max).len() == 0,
        all_within(wrap_from(words, k, cur, max), bound),
    decreases words.len() - k,
{
    if k < words.len() {
        let word = words[k];
        if cur.len() == 0 {
            lemma_wrap_within(words, k + 1, word, max, bound);
        } else if cur.len() + 1 + word.len() <= max {
            lemma_wrap_within(words, k + 1, cur + seq![' '] + word, max, bound);
        } else {
            lemma_wrap_within(words, k + 1, word, max, bound);
            let tail = wrap_from(words, k + 1, word, max);
            assert(wrap_from(words, k, cur, max) == seq![cur] + tail);
            assert forall|j: int| 0 <= j < wrap_from(words, k, cur, max).len() implies (
            #[trigger] wrap_from(words, k, cur, max)[j]).len() <= bound by {
                if j >= 1 {
                    assert(wrap_from(words, k, cur, max)[j] == tail[j - 1]);
                }
            }
        }
    }
}

/// `line` is one of `words`.
pub open spec fn is_word_of(line: Seq<char>, words: Seq<Seq<char>>) -> bool {
    exists|i: int| 0 <= i < words.len() && #[trigger] words[i] == line
}

/// Every one of `lines` is within `max` characters, or is one of `words`.
pub open spec fn keeps_width(lines: Seq<Seq<char>>, words: Seq<Seq<char>>, max: int) -> bool {
    forall|j: int|
        0 <= j < lines.len() ==> (#[trigger] lines[j]).len() <= max || is_word_of(lines[j], words)
}

/// Greedy wrapping keeps to the width where it can: a line longer than `max`
/// is a single word that is itself longer than that. The line begun counts
/// as such a word where it is one.
pub proof fn lemma_wrap_keeps_width(words: Seq<Seq<char>>, k: int, cur: Seq<char>, max: int)
    requires
        0 <= k <= words.len(),
        cur.len() <= max || is_word_of(cur, words),
    ensures
        keeps_width(wrap_from(words, k, cur, max), words, max),
    decreases words.len() - k,
{
    let lines = wrap_from(words, k, cur, max);
    if k < words.len() {
        let word = words[k];
        assert(is_word_of(word, words));
        if cur.len() == 0 {
            lemma_wrap_keeps_width(words, k + 1, word, max);
            assert(lines == wrap_from(words, k + 1, word, max));
        } else if cur.len() + 1 + word.len() <= max {
            lemma_wrap_keeps_width(words, k + 1, cur + seq![' '] + word, max);
            assert(lines == wrap_from(words, k + 1, cur + seq![' '] + word, max));
        } else {
            lemma_wrap_keeps_width(words, k + 1, word, max);
            let tail = wrap_from(words, k + 1, word, max);
            assert(lines == seq![cur] + tail);
            assert forall|j: int| 0 <= j < lines.len() implies (#[trigger] lines[j]).len() <= max
                || is_word_of(lines[j], words) by {
                if j >= 1 {
                    assert(lines[j] == tail[j - 1]);
                } else {
                    assert(lines[j] == cur);
                }
            }
        }
    } else {
        assert(lines == word_if_any(cur));
        assert forall|j: int| 0 <= j < lines.len() implies (#[trigger] lines[j]).len() <= max
            || is_word_of(lines[j], words) by {
            assert(lines[j] == cur);
        }
    }
}

/// Wrapped text keeps to its width: a line longer than the width is a single
/// word of the text.
pub proof fn lemma_wrap_lines(s: Seq<char>, max: int)
    requires
        0 <= max,
    ensures
        keeps_width(wrap(s, max), split_words(s), max),
{
    lemma_wrap_keeps_width(split_words(s), 0, Seq::empty(), max);
}

/// Text of at most 65535 characters is well formed, wrapped or not. Not
/// wrapped, it is one line of its length; wrapped, it has no more lines than
/// characters, and none longer than the width or, where a word is longer
/// than that, than the text.
pub proof fn lemma_short_text_fits(text: &Text)
    requires
        text.text@.len() <= u16::MAX,
    ensures
        text.measured(),
{
    let s = text.text@;
    match text.max_width {
        Some(max) => {
            let words = split_words(s);
            let bound = larger(max, s.len() as u16);
            lemma_words_within(s, Seq::empty());
            lemma_wrap_within(words, 0, Seq::empty(), max as int, bound as int);
            lemma_longest_bounds(text.lines_spec(), bound as nat);
            lemma_longest_bounds(text.lines_spec(), u16::MAX as nat);
        },
        None => {
            let lines = text.lines_spec();
            assert(lines.drop_last() =~= Seq::<Seq<char>>::empty());
            assert(longest(lines.drop_last()) == 0);
            assert(longest(lines) == s.len());
        },
    }
}

/// Splits `chars` into its words.
pub fn words_of(chars: &Vec<char>) -> (words: Vec<Vec<char>>)
    ensures
        lines_view(&words) == split_words(chars@),
{
    let n = chars.len();
    let mut words: Vec<Vec<char>> = Vec::new();
    let mut cur: Vec<char> = Vec::new();
    let mut i: usize = 0;
    assert(chars@.skip(0) =~= chars@);
    assert(lines_view(&words) + split_words(chars@) =~= split_words(chars@));
    while i < n
        invariant
            n == chars@.len(),
            i <= n,
            split_words(chars@) == lines_view(&words) + words_from(chars@.skip(i as int), cur@),
        decreases n - i,
    {
        let c = chars[i];
        let ghost rest = chars@.skip(i as int);
        let ghost before = lines_view(&words);
        let ghost begun = cur@;
        assert(rest.drop_first() =~= chars@.skip(i + 1));
        assert(rest[0] == c);
        if is_whitespace(c) {
            assert(words_from(rest, begun) == word_if_any(begun) + words_from(
                rest.drop_first(),
                Seq::empty(),
            ));
            if cur.len() > 0 {
                words.push(cur);
                cur = Vec::new();
                assert(lines_view(&words) =~= before + word_if_any(begun));
            } else {
                assert(begun =~= Seq::<char>::empty());
                assert(before + word_if_any(begun) =~= before);
            }
            assert(before + (word_if_any(begun) + words_from(rest.drop_first(), Seq::empty()))
                =~= (before + word_if_any(begun)) + words_from(rest.drop_first(), Seq::empty()));
        } else {
            assert(words_from(rest, begun) == words_from(rest.drop_first(), begun.push(c)));
            cur.push(c);
        }
        i = i + 1;
    }
    assert(chars@.skip(n as int) =~= Seq::<char>::empty());
    let ghost before = lines_view(&words);
    let ghost begun = cur@;
    if cur.len() > 0 {
        words.push(cur);
        assert(lines_view(&words) =~= before + word_if_any(begun));
    } else {
        assert(before + word_if_any(begun) =~= before);
    }
    words
}

/// Wraps `words` greedily into lines of at most `max` characters.
pub fn wrap_words(words: &Vec<Vec<char>>, max: u16) -> (lines: Vec<Vec<char>>)
    ensures
        lines_view(&lines) == wrap_from(lines_view(words), 0, Seq::empty(), max as int),
{
    let n = words.len();
    let mut lines: Vec<Vec<char>> = Vec::new();
    let mut cur: Vec<char> = Vec::new();
    let mut k: usize = 0;
    let ghost all = lines_view(words);
    let ghost goal = wrap_from(all, 0, Seq::empty(), max as int);
    assert(lines_view(&lines) + goal =~= goal);
    while k < n
        invariant
            n == words@.len(),
            k <= n,
            all == lines_view(words),
            goal == lines_view(&lines) + wrap_from(all, k as int, cur@, max as int),
        decreases n - k,
    {
        let word = &words[k];
        let ghost before = lines_view(&lines);
        let ghost begun = cur@;
        assert(all[k as int] == word@);
        if cur.len() == 0 {
            cur = word.clone();
            assert(cur@ =~= word@);
        } else if cur.len() <= (max as usize) && word.len() <= (max as usize) && cur.len() + 1
            + word.len() <= (max as usize) {
            cur.push(' ');
            let mut i: usize = 0;
            while i < word.len()
                invariant
                    i <= word@.len(),
                    cur@ == begun + seq![' '] + word@.take(i as int),
                decreases word@.len() - i,
            {
                cur.push(word[i]);
                i = i + 1;
                assert(cur@ =~= begun + seq![' '] + word@.take(i as int));
            }
            assert(word@.take(word@.len() as int) =~= word@);
        } else {
            lines.push(cur);
            cur = word.clone();
            assert(cur@ =~= word@);
            assert(lines_view(&lines) =~= before + seq![begun]);
            assert(before + (seq![begun] + wrap_from(all, k + 1, word@, max as int)) =~= (before
                + seq![begun]) + wrap_from(all, k + 1, word@, max as int));
        }
        k = k + 1;
    }
    let ghost before = lines_view(&lines);
    let ghost begun = cur@;
    if cur.len() > 0 {
        lines.push(cur);
        assert(lines_view(&lines) =~= before + word_if_any(begun));
    } else {
        assert(before + word_if_any(begun) =~= before);
    }
    lines
}

impl Text {
    /// What is well formed and the minimum size come to for text of at most
    /// 65535 characters: it is well formed; not wrapped, it is one line of
    /// its length; wrapped, it has no more lines than characters, and none
    /// longer than the width or, where a word is longer than that, than the
    /// text.
    pub open spec fn measured(&self) -> bool {
        self.text@.len() <= u16::MAX ==> {
            &&& self.well_formed()
            &&& match self.max_width {
                None => self.min_size_spec() == (self.text@.len() as u16, 1u16),
                Some(max) => self.min_size_spec().0 <= larger(max, self.text@.len() as u16)
                    && self.min_size_spec().1 <= self.text@.len(),
            }
        }
    }

    /// Text that shows `s` on one line.
    pub fn new(s: &str) -> (text: Self)
        ensures
            text.text@ == s@,
            text.max_width is None,
            text.measured(),
    {
        let text = Self { text: s.to_owned(), max_width: None };
        proof {
            if s@.len() <= u16::MAX {
                lemma_short_text_fits(&text);
            }
        }
        text
    }

    /// The same text, wrapped at word boundaries into lines of at most
    /// `width` characters. A word longer than that stays whole.
    pub fn max_width(self, width: u16) -> (text: Self)
        ensures
            text.text == self.text,
            text.max_width == Some(width),
            text.measured(),
    {
        let text = Self { text: self.text, max_width: Some(width) };
        proof {
            if text.text@.len() <= u16::MAX {
                lemma_short_text_fits(&text);
            }
        }
        text
    }

    /// The lines in which the text is shown.
    pub open spec fn lines_spec(&self) -> Seq<Seq<char>> {
        match self.max_width {
            Some(max) => wrap(self.text@, max as int),
            None => seq![self.text@],
        }
    }

    /// Returns the lines in which the text is shown, as characters.
    pub fn lines(&self) -> (lines: Vec<Vec<char>>)
        ensures
            lines_view(&lines) == self.lines_spec(),
    {
        let chars = chars_of(self.text.as_str());
        match self.max_width {
            Some(max) => {
                let words = words_of(&chars);
                wrap_words(&words, max)
            },
            None => {
                let mut lines: Vec<Vec<char>> = Vec::new();
                lines.push(chars);
                assert(lines_view(&lines) =~= seq![self.text@]);
                lines
            },
        }
    }

    /// Returns the lines in which the text is shown.
    pub fn wrapped_lines(&self) -> (lines: Vec<String>)
        ensures
            lines@.len() == self.lines_spec().len(),
            forall|j: int|
                0 <= j < lines@.len() ==> (#[trigger] lines@[j])@ == self.lines_spec()[j],
    {
        let chars = self.lines();
        let mut lines: Vec<String> = Vec::new();
        let mut j: usize = 0;
        while j < chars.len()
            invariant
                j <= chars@.len(),
                lines@.len() == j,
                lines_view(&chars) == self.lines_spec(),
                forall|m: int| 0 <= m < j ==> (#[trigger] lines@[m])@ == self.lines_spec()[m],
            decreases chars@.len() - j,
        {
            let line = string_from_chars(&chars[j]);
            assert(line@ == lines_view(&chars)[j as int]);
            lines.push(line);
            j = j + 1;
        }
        lines
    }

    /// Tells whether the widget is well formed.
    pub fn is_well_formed(&self) -> (ok: bool)
        ensures
            ok == self.well_formed(),
    {
        let lines = self.lines();
        lines_can_fit(&lines)
    }
}

impl Widget for Text {
    open spec fn well_formed(&self) -> bool {
        lines_fit(self.lines_spec())
    }

    open spec fn min_size_spec(&self) -> (u16, u16) {
        (longest(self.lines_spec()) as u16, self.lines_spec().len() as u16)
    }

    open spec fn flex_spec(&self) -> Option<i32> {
        None
    }

    open spec fn floors(&self) -> bool {
        false
    }

    open spec fn render_spec(&self, width: u16, height: u16) -> Seq<Seq<char>> {
        lines_grid(self.lines_spec(), width as int, height as int)
    }

    fn min_size(&self) -> (size: (u16, u16)) {
        let lines = self.lines();
        measure_lines(&lines)
    }

    fn render(&self, width: u16, height: u16) -> (canvas: Canvas) {
        let lines = self.lines();
        render_lines(&lines, width, height)
    }

    fn flex_factor(&self) -> (flex: Option<i32>) {
        None
    }
}
impl IntoWidget for Text {
    open spec fn ready(&self) -> bool {
        true
    }

    open spec fn yields(&self, widget: AnyWidget) -> bool {
        widget == AnyWidget::Text(*self) && same_layout(&widget, self)
    }

    fn into_widget(self) -> (widget: AnyWidget) {
        let ghost me = self;
        let widget = AnyWidget::Text(self);
        assert(widget.well_formed() == me.well_formed());
        assert(widget.min_size_spec() == me.min_size_spec());
        assert(widget.flex_spec() == me.flex_spec());
        assert(widget.floors() == me.floors());
        widget
    }
}

/// Text that shows `s` on one line.
pub fn text(s: &str) -> (text: Text)
    ensures
        text.text@ == s@,
        text.max_width is None,
        text.measured(),
{
    Text::new(s)
}

} // verus!
