use ntrade_advance::ui::rendering::{
    canvas_to_string, create_canvas, filled_row, overlay, render_ui, Canvas, IntoWidget,
    NIO_MAX_COLS, NIO_MAX_ROWS, Widget, WIPE_CHAR,
};
use ntrade_advance::ui::tree::AnyWidget;
use ntrade_advance::ui::widgets::text::text;

fn rows(lines: &[&str]) -> Canvas {
    lines.iter().map(|line| line.chars().collect()).collect()
}

#[test]
fn create_canvas_is_blank() {
    let canvas = create_canvas(3, 2);
    assert_eq!(canvas, rows(&["   ", "   "]));
}

#[test]
fn create_canvas_of_no_rows_or_no_columns() {
    assert_eq!(create_canvas(4, 0), Vec::<Vec<char>>::new());
    assert_eq!(create_canvas(0, 2), vec![Vec::<char>::new(), Vec::<char>::new()]);
}

#[test]
fn filled_row_repeats_the_glyph() {
    assert_eq!(filled_row('#', 4), vec!['#', '#', '#', '#']);
    assert_eq!(filled_row('#', 0), Vec::<char>::new());
}

#[test]
fn overlay_keeps_parent_under_spaces_and_wipes() {
    let mut parent = rows(&["abc", "def"]);
    let child = vec![vec![' ', 'x'], vec![WIPE_CHAR, ' ']];
    overlay(&mut parent, &child, 1, 0);
    assert_eq!(parent, rows(&["abx", "d f"]));
}

#[test]
fn overlay_space_never_overwrites() {
    let mut parent = rows(&["abc", "def"]);
    let child = rows(&["   ", "   "]);
    overlay(&mut parent, &child, 0, 0);
    assert_eq!(parent, rows(&["abc", "def"]));
}

#[test]
fn overlay_wipe_forces_space() {
    let mut parent = rows(&["abc", "def"]);
    let child = vec![vec![WIPE_CHAR; 3], vec![WIPE_CHAR; 3]];
    overlay(&mut parent, &child, 0, 0);
    assert_eq!(parent, rows(&["   ", "   "]));
}

#[test]
fn overlay_drops_what_falls_outside() {
    let mut parent = rows(&["....", "....", "...."]);
    let child = rows(&["123", "456", "789"]);
    overlay(&mut parent, &child, 2, 1);
    assert_eq!(parent, rows(&["....", "..12", "..45"]));
    let mut parent = rows(&["..", ".."]);
    overlay(&mut parent, &child, 5, 0);
    assert_eq!(parent, rows(&["..", ".."]));
    overlay(&mut parent, &child, 0, 7);
    assert_eq!(parent, rows(&["..", ".."]));
    overlay(&mut parent, &child, 65535, 65535);
    assert_eq!(parent, rows(&["..", ".."]));
}

#[test]
fn overlay_onto_empty_parent() {
    let mut parent: Canvas = Vec::new();
    overlay(&mut parent, &rows(&["ab"]), 0, 0);
    assert_eq!(parent, Vec::<Vec<char>>::new());
}

#[test]
fn overlay_takes_ragged_children() {
    let mut parent = rows(&["....", "...."]);
    let child = rows(&["a", "bcd"]);
    overlay(&mut parent, &child, 1, 0);
    assert_eq!(parent, rows(&[".a..", ".bcd"]));
}

#[test]
fn canvas_to_string_joins_rows_and_hides_wipes() {
    let canvas = vec![vec!['a', WIPE_CHAR, 'b'], vec!['c', 'd', 'e']];
    assert_eq!(canvas_to_string(&canvas), "a b\ncde");
    assert_eq!(canvas_to_string(&rows(&["one"])), "one");
    assert_eq!(canvas_to_string(&Vec::new()), "");
    assert_eq!(canvas_to_string(&rows(&["", ""])), "\n");
}

#[test]
fn render_ui_fills_the_display() {
    let out = render_ui(text("hi"));
    let lines: Vec<&str> = out.split('\n').collect();
    assert_eq!(lines.len(), NIO_MAX_ROWS as usize);
    for line in &lines {
        assert_eq!(line.chars().count(), NIO_MAX_COLS as usize);
    }
    assert!(lines[0].starts_with("hi "));
    assert_eq!(lines[1].trim(), "");
}

#[test]
fn any_widget_renders_as_what_it_holds() {
    let plain = text("abc");
    let held: AnyWidget = text("abc").into_widget();
    assert_eq!(plain.render(5, 2), held.render(5, 2));
    assert_eq!(plain.min_size(), held.min_size());
    assert_eq!(held.flex_factor(), None);
    let again = held.into_widget();
    assert_eq!(again.render(5, 2), plain.render(5, 2));
}
