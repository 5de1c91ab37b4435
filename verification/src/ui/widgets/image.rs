//! A block of text shown as it is.

use crate::ui::lines::{
    chars_of, copy_range, lemma_longest_bounds, lines_can_fit, lines_fit, lines_grid, lines_view,
    longest, measure_lines, render_lines,
};
use crate::ui::rendering::{same_layout, Canvas, IntoWidget, Widget};
use crate::ui::tree::AnyWidget;
use vstd::prelude::*;

verus! {

/// A fixed block of characters, one row per line of `data`.
pub struct Image {
    pub data: String,
}

/// The number of characters of `s` before its first line feed, the length of
/// `s` where it has none.
pub open spec fn line_end(s: Seq<char>) -> nat
    decreases s.len(),
{
    if s.len() == 0 || s[0] == '\n' {
        0
    } else {
        1 + line_end(s.drop_first())
    }
}

/// `line` without the carriage return at its end, if it has one there.
pub open spec fn trim_cr(line: Seq<char>) -> Seq<char> {
    if line.len() > 0 && line.last() == '\r' {
        line.drop_last()
    } else {
        line
    }
}

/// The lines of `s`: a line ends at a line feed, or at a carriage return
/// followed by a line feed; neither belongs to the line. After the last
/// line feed only a non-empty rest is a line.
pub open spec fn split_lines(s: Seq<char>) -> Seq<Seq<char>>
    decreases s.len(),
{
    if s.len() == 0 {
        Seq::empty()
    } else {
        let end = line_end(s);
        if end >= s.len() {
            seq![s]
        } else {
            seq![trim_cr(s.take(end as int))] + split_lines(s.skip(end as int + 1))
        }
    }
}

/// `line_end` is the index of the first line feed.
pub proof fn lemma_line_end(s: Seq<char>, k: int)
    requires
        0 <= k <= s.len(),
        forall|m: int| 0 <= m < k ==> s[m] != '\n',
        k == s.len() || s[k] == '\n',
    ensures
        line_end(s) == k,
    decreases k,
{
    if k > 0 {
        let t = s.drop_first();
        assert forall|m: int| 0 <= m < k - 1 implies t[m] != '\n' by {
            assert(t[m] == s[m + 1]);
        }
        lemma_line_end(t, k - 1);
    }
}

/// `line_end` lies within the text.
pub proof fn lemma_line_end_within(s: Seq<char>)
    ensures
        line_end(s) <= s.len(),
    decreases s.len(),
{
    if s.len() > 0 && s[0] != '\n' {
        lemma_line_end_within(s.drop_first());
    }
}

/// The lines of a text are no more and no longer than the text has
/// characters.
pub proof fn lemma_lines_within(s: Seq<char>)
    ensures
        split_lines(s).len() <= s.len(),
        forall|j: int| 0 <= j < split_lines(s).len() ==> (#[trigger] split_lines(s)[j]).len()
            <= s.len(),
    decreases s.len(),
{
    if s.len() > 0 {
        let end = line_end(s);
        lemma_line_end_within(s);
        if end < s.len() {
            let rest = s.skip(end as int + 1);
            lemma_lines_within(rest);
            let tail = split_lines(rest);
            assert(split_lines(s) == seq![trim_cr(s.take(end as int))] + tail);
            assert forall|j: int| 0 <= j < split_lines(s).len() implies (#[trigger] split_lines(
                s,
            )[j]).len() <= s.len() by {
                if j >= 1 {
                    assert(split_lines(s)[j] == tail[j - 1]);
                }
            }
        }
    }
}

/// An image of at most 65535 characters is well formed, and has no more
/// rows or columns than characters.
pub proof fn lemma_short_image_fits(image: &Image)
    requires
        image.data@.len() <= u16::MAX,
    ensures
        image.measured(),
{
    lemma_lines_within(image.data@);
    lemma_longest_bounds(image.lines_spec(), u16::MAX as nat);
    lemma_longest_bounds(image.lines_spec(), image.data@.len());
}

/// Splits `chars` into its lines.
pub fn lines_of(chars: &Vec<char>) -> (lines: Vec<Vec<char>>)
    ensures
        lines_view(&lines) == split_lines(chars@),
{
    let n = chars.len();
    let mut lines: Vec<Vec<char>> = Vec::new();
    let mut start: usize = 0;
    let mut i: usize = 0;
    assert(chars@.skip(0) =~= chars@);
    assert(lines_view(&lines) + split_lines(chars@) =~= split_lines(chars@));
    while i < n
        invariant
            n == chars@.len(),
            start <= i <= n,
            forall|m: int| start <= m < i ==> chars@[m] != '\n',
            split_lines(chars@) == lines_view(&lines) + split_lines(chars@.skip(start as int)),
        decreases n - i,
    {
        if chars[i] == '\n' {
            let end = if i > start && chars[i - 1] == '\r' {
                i - 1
            } else {
                i
            };
            let line = copy_range(chars, start, end);
            proof {
                let rest = chars@.skip(start as int);
                assert forall|m: int| 0 <= m < i - start implies rest[m] != '\n' by {
                    assert(rest[m] == chars@[start + m]);
                }
                lemma_line_end(rest, i - start);
                assert(rest.take(i - start) =~= chars@.subrange(start as int, i as int));
                assert(line@ =~= trim_cr(rest.take(i - start)));
                assert(rest.skip(i - start + 1) =~= chars@.skip(i + 1));
                assert(split_lines(rest) == seq![line@] + split_lines(chars@.skip(i + 1)));
            }
            let ghost before = lines_view(&lines);
            lines.push(line);
            assert(lines_view(&lines) =~= before.push(line@));
            assert(before + (seq![line@] + split_lines(chars@.skip(i + 1))) =~= before.push(line@)
                + split_lines(chars@.skip(i + 1)));
            start = i + 1;
        }
        i = i + 1;
    }
    if start < n {
        let line = copy_range(chars, start, n);
        proof {
            let rest = chars@.skip(start as int);
            assert forall|m: int| 0 <= m < n - start implies rest[m] != '\n' by {
                assert(rest[m] == chars@[start + m]);
            }
            lemma_line_end(rest, n - start);
            assert(line@ =~= rest);
            assert(split_lines(rest) == seq![line@]);
        }
        let ghost before = lines_view(&lines);
        lines.push(line);
        assert(lines_view(&lines) =~= before.push(line@));
        assert(before + seq![line@] =~= before.push(line@));
    } else {
        assert(chars@.skip(start as int) =~= Seq::<char>::empty());
        assert(lines_view(&lines) + Seq::<Seq<char>>::empty() =~= lines_view(&lines));
    }
    lines
}

impl Image {
    /// What is well formed and the minimum size come to for an image of at
    /// most 65535 characters: it is well formed, and has no more rows or
    /// columns than characters.
    pub open spec fn measured(&self) -> bool {
        self.data@.len() <= u16::MAX ==> {
            &&& self.well_formed()
            &&& self.min_size_spec().0 <= self.data@.len()
            &&& self.min_size_spec().1 <= self.data@.len()
        }
    }

    /// An image that shows `data`.
    pub fn new(data: &str) -> (image: Self)
        ensures
            image.data@ == data@,
            image.measured(),
    {
        let image = Self { data: data.to_owned() };
        proof {
            if data@.len() <= u16::MAX {
                lemma_short_image_fits(&image);
            }
        }
        image
    }

    /// The lines of the image.
    pub open spec fn lines_spec(&self) -> Seq<Seq<char>> {
        split_lines(self.data@)
    }

    /// Tells whether the widget is well formed.
    pub fn is_well_formed(&self) -> (ok: bool)
        ensures
            ok == self.well_formed(),
    {
        let chars = chars_of(self.data.as_str());
        let lines = lines_of(&chars);
        lines_can_fit(&lines)
    }
}

impl Widget for Image {
    open spec fn well_formed(&self) -> bool {
        lines_fit(self.lines_spec())
    }

    open spec fn min_size_spec(&self) -> (u16, u16) {
        (longest(self.lines_spec()) as u16, self.lines_spec().len() as u16)
    }

    open spec fn flex_spec(&self) -> Option<i32> {
        None
    }

    open spec fn floors(&self) -> bool {
        false
    }

    open spec fn render_spec(&self, width: u16, height: u16) -> Seq<Seq<char>> {
        lines_grid(self.lines_spec(), width as int, height as int)
    }

    fn min_size(&self) -> (size: (u16, u16)) {
        let chars = chars_of(self.data.as_str());
        let lines = lines_of(&chars);
        measure_lines(&lines)
    }

    fn render(&self, width: u16, height: u16) -> (canvas: Canvas) {
        let chars = chars_of(self.data.as_str());
        let lines = lines_of(&chars);
        render_lines(&lines, width, height)
    }

    fn flex_factor(&self) -> (flex: Option<i32>) {
        None
    }
}
impl IntoWidget for Image {
    open spec fn ready(&self) -> bool {
        true
    }

    open spec fn yields(&self, widget: AnyWidget) -> bool {
        widget == AnyWidget::Image(*self) && same_layout(&widget, self)
    }

    fn into_widget(self) -> (widget: AnyWidget) {
        let ghost me = self;
        let widget = AnyWidget::Image(self);
        assert(widget.well_formed() == me.well_formed());
        assert(widget.min_size_spec() == me.min_size_spec());
        assert(widget.flex_spec() == me.flex_spec());
        assert(widget.floors() == me.floors());
        widget
    }
}

/// An image that shows `data` from its top-left corner on; the rest of its
/// allocation stays blank.
pub fn image(data: &str) -> (image: Image)
    ensures
        image.data@ == data@,
        image.measured(),
{
    Image::new(data)
}

} // verus!
