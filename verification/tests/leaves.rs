use ntrade_advance::ui::lines::{chars_of, copy_range, measure_lines, render_lines};
use ntrade_advance::ui::rendering::{Canvas, Widget};
use ntrade_advance::ui::widgets::divider::{divider, Divider, Orientation};
use ntrade_advance::ui::widgets::image::{image, lines_of, Image};
use ntrade_advance::ui::widgets::progress_bar::{progress_bar, ProgressBar};
use ntrade_advance::ui::widgets::text::{is_whitespace, text, words_of, wrap_words, Text};

fn rows(lines: &[&str]) -> Canvas {
    lines.iter().map(|line| line.chars().collect()).collect()
}

fn strings(lines: &[&str]) -> Vec<String> {
    lines.iter().map(|line| line.to_string()).collect()
}

#[test]
fn text_hello_world_wraps_at_five() {
    let t = Text::new("hello world").max_width(5);
    assert_eq!(t.wrapped_lines(), strings(&["hello", "world"]));
    assert_eq!(t.min_size(), (5, 2));
}

#[test]
fn text_without_width_is_one_line() {
    let t = text("hello world");
    assert_eq!(t.wrapped_lines(), strings(&["hello world"]));
    assert_eq!(t.min_size(), (11, 1));
    assert_eq!(t.flex_factor(), None);
}

#[test]
fn text_wraps_greedily() {
    let t = text("a bb ccc dddd").max_width(4);
    assert_eq!(t.wrapped_lines(), strings(&["a bb", "ccc", "dddd"]));
    assert_eq!(t.min_size(), (4, 3));
    let t = text("aa bb cc").max_width(5);
    assert_eq!(t.wrapped_lines(), strings(&["aa bb", "cc"]));
}

#[test]
fn text_keeps_a_long_word_whole() {
    let t = text("abcdefgh ij").max_width(3);
    assert_eq!(t.wrapped_lines(), strings(&["abcdefgh", "ij"]));
    assert_eq!(t.min_size(), (8, 2));
}

#[test]
fn text_collapses_white_space_when_wrapping() {
    let t = text("  a\t\nb   c ").max_width(10);
    assert_eq!(t.wrapped_lines(), strings(&["a b c"]));
    let t = text("a b").max_width(0);
    assert_eq!(t.wrapped_lines(), strings(&["a", "b"]));
}

#[test]
fn text_empty() {
    assert_eq!(text("").min_size(), (0, 1));
    assert_eq!(text("").max_width(4).min_size(), (0, 0));
    assert_eq!(text("   ").max_width(4).wrapped_lines(), Vec::<String>::new());
    assert_eq!(text("").render(2, 1), rows(&["  "]));
}

#[test]
fn text_renders_clipped() {
    assert_eq!(text("hi").render(4, 2), rows(&["hi  ", "    "]));
    assert_eq!(text("hello").render(3, 1), rows(&["hel"]));
    assert_eq!(text("hello world").max_width(5).render(4, 1), rows(&["hell"]));
    assert_eq!(text("hello world").max_width(5).render(6, 3), rows(&["hello ", "world ", "      "]));
    assert_eq!(text("hello").render(0, 0), Vec::<Vec<char>>::new());
}

#[test]
fn text_counts_characters() {
    let t = text("h\u{e9}llo w\u{f6}rld").max_width(5);
    assert_eq!(t.wrapped_lines(), strings(&["h\u{e9}llo", "w\u{f6}rld"]));
    assert_eq!(t.min_size(), (5, 2));
}

#[test]
fn is_whitespace_agrees_with_the_standard_library() {
    let mut code: u32 = 0;
    while code <= 0x10ffff {
        if let Some(c) = char::from_u32(code) {
            assert_eq!(is_whitespace(c), c.is_whitespace(), "U+{:04X}", code);
        }
        code += 1;
    }
}

#[test]
fn words_of_agrees_with_split_whitespace() {
    for sample in ["", " ", "a", " a ", "a  b", "one two\tthree\nfour", "\u{3000}x\u{a0}y"] {
        let chars: Vec<char> = sample.chars().collect();
        let got: Vec<String> = words_of(&chars).iter().map(|w| w.iter().collect()).collect();
        let want: Vec<String> = sample.split_whitespace().map(|w| w.to_string()).collect();
        assert_eq!(got, want, "{:?}", sample);
    }
}

#[test]
fn wrap_words_fills_lines_exactly() {
    let words: Vec<Vec<char>> = ["ab", "cd", "ef"].iter().map(|w| w.chars().collect()).collect();
    let lines: Vec<String> = wrap_words(&words, 5).iter().map(|w| w.iter().collect()).collect();
    assert_eq!(lines, strings(&["ab cd", "ef"]));
    let lines: Vec<String> = wrap_words(&words, 4).iter().map(|w| w.iter().collect()).collect();
    assert_eq!(lines, strings(&["ab", "cd", "ef"]));
    let lines: Vec<String> = wrap_words(&words, 8).iter().map(|w| w.iter().collect()).collect();
    assert_eq!(lines, strings(&["ab cd ef"]));
    assert_eq!(wrap_words(&Vec::new(), 8), Vec::<Vec<char>>::new());
}

#[test]
fn chars_of_and_copy_range() {
    assert_eq!(chars_of("a\u{e9}b"), vec!['a', '\u{e9}', 'b']);
    assert_eq!(copy_range(&vec!['a', 'b', 'c', 'd'], 1, 3), vec!['b', 'c']);
    assert_eq!(copy_range(&vec!['a', 'b'], 2, 2), Vec::<char>::new());
}

#[test]
fn measure_and_render_lines() {
    let lines = rows(&["ab", "", "cdef"]);
    assert_eq!(measure_lines(&lines), (4, 3));
    assert_eq!(measure_lines(&Vec::new()), (0, 0));
    assert_eq!(render_lines(&lines, 3, 4), rows(&["ab ", "   ", "cde", "   "]));
}

#[test]
fn lines_of_agrees_with_the_standard_library() {
    for sample in ["", "a", "a\n", "a\nb", "a\r\nb\r", "\n", "\n\n", "a\n\nb\n", "\r\n", "x\ry\n", "\r"] {
        let chars: Vec<char> = sample.chars().collect();
        let got: Vec<String> = lines_of(&chars).iter().map(|w| w.iter().collect()).collect();
        let want: Vec<String> = sample.lines().map(|w| w.to_string()).collect();
        assert_eq!(got, want, "{:?}", sample);
    }
}

#[test]
fn image_min_size_and_render() {
    let art = image("ab\ncde\n");
    assert_eq!(art.min_size(), (3, 2));
    assert_eq!(art.render(4, 3), rows(&["ab  ", "cde ", "    "]));
    assert_eq!(art.render(2, 1), rows(&["ab"]));
    assert_eq!(art.flex_factor(), None);
    assert_eq!(Image::new("").min_size(), (0, 0));
    assert_eq!(Image::new(" x\n").render(2, 2), rows(&[" x", "  "]));
}

#[test]
fn divider_horizontal_fills_the_first_row() {
    let d = divider('-');
    assert!(matches!(d.orientation, Orientation::Horizontal));
    assert_eq!(d.min_size(), (1, 1));
    assert_eq!(d.render(3, 1), rows(&["---"]));
    assert_eq!(d.render(3, 2), rows(&["---", "   "]));
    assert_eq!(d.render(3, 0), Vec::<Vec<char>>::new());
    assert_eq!(d.flex_factor(), None);
}

#[test]
fn divider_vertical_draws_the_middle_column() {
    let d = Divider::new('|').vertical();
    assert!(matches!(d.orientation, Orientation::Vertical));
    assert_eq!(d.min_size(), (1, 1));
    assert_eq!(d.render(5, 2), rows(&["  |  ", "  |  "]));
    assert_eq!(d.render(4, 1), rows(&["  | "]));
    assert_eq!(d.render(1, 2), rows(&["|", "|"]));
    assert_eq!(d.render(0, 2), rows(&["", ""]));
}

#[test]
fn progress_bar_half_of_ten() {
    let bar = ProgressBar::new(1, 2, ' ', '#', '>');
    assert_eq!(bar.active(10), 5);
    assert_eq!(bar.render(10, 1), rows(&["####>     "]));
    assert_eq!(bar.min_size(), (5, 1));
    assert_eq!(bar.flex_factor(), None);
}

#[test]
fn progress_bar_edges() {
    assert_eq!(progress_bar(1, 1, '#', '>', '.').render(4, 2), rows(&["####", "####"]));
    assert_eq!(progress_bar(3, 2, '#', '>', '.').render(4, 1), rows(&["####"]));
    assert_eq!(progress_bar(0, 5, '#', '>', '.').render(4, 1), rows(&["...."]));
    assert_eq!(progress_bar(1, 0, '#', '>', '.').render(4, 1), rows(&["...."]));
    assert_eq!(progress_bar(1, 5, '#', '>', '.').render(4, 1), rows(&["...."]));
    assert_eq!(progress_bar(1, 4, '#', '>', '.').render(4, 1), rows(&[">..."]));
    assert_eq!(progress_bar(32, 100, '#', '>', '.').render(49, 1)[0].iter().filter(|c| **c != '.').count(), 15);
    assert_eq!(progress_bar(4294967294, 4294967295, '#', '>', '.').active(65535), 65534);
    assert_eq!(progress_bar(1, 2, '#', '>', '.').render(0, 1), rows(&[""]));
}
