use ntrade_advance::ui::layout::{distribute, largest_of, left_over, repair, total_flex, total_of};
use ntrade_advance::ui::layout::can_lay_out;
use ntrade_advance::ui::lines::lines_can_fit;
use ntrade_advance::ui::rendering::{try_render_ui, Canvas, IntoWidget, Widget};
use ntrade_advance::ui::tree::{children_well_formed, into_widgets, measure_children, AnyWidget};
use ntrade_advance::ui::theme::{borders_plain, borders_selected, corners_none, corners_round};
use ntrade_advance::ui::widgets::align::{align, Align, AlignHorizontal, AlignVertical};
use ntrade_advance::ui::widgets::border::{border, draw_frame, Border, Borders, Corners};
use ntrade_advance::ui::widgets::builder::{builder, BuilderWidget};
use ntrade_advance::ui::widgets::button::{button, Button};
use ntrade_advance::ui::widgets::divider::divider;
use ntrade_advance::ui::widgets::flexible::{flexible, Flexible};
use ntrade_advance::ui::widgets::linear::{paint_children, Axis};
use ntrade_advance::ui::widgets::padding::{padding, Padding};
use ntrade_advance::ui::widgets::progress_bar::progress_bar;
use ntrade_advance::ui::widgets::row::{row, Row};
use ntrade_advance::ui::widgets::sizedbox::{sizedbox, SizedBox};
use ntrade_advance::ui::widgets::stack::{stack, Stack};
use ntrade_advance::ui::widgets::text::text;

fn rows(lines: &[&str]) -> Canvas {
    lines.iter().map(|line| line.chars().collect()).collect()
}

fn no_sides() -> Borders {
    Borders { left: None, right: None, top: None, bottom: None }
}

#[test]
fn align_centres_by_default() {
    let a = align(text("ab"));
    assert_eq!(a.min_size(), (2, 1));
    assert_eq!(a.render(6, 3), rows(&["      ", "  ab  ", "      "]));
    assert_eq!(a.render(5, 2), rows(&[" ab  ", "     "]));
    assert_eq!(a.flex_factor(), None);
}

#[test]
fn align_start_end_and_stretch() {
    let a = Align::new(text("ab")).horizontal(AlignHorizontal::End).vertical(AlignVertical::End);
    assert_eq!(a.render(5, 2), rows(&["     ", "   ab"]));
    let a = align(text("ab")).horizontal(AlignHorizontal::Start).vertical(AlignVertical::Start);
    assert_eq!(a.render(5, 2), rows(&["ab   ", "     "]));
    let a = align(divider('-')).horizontal(AlignHorizontal::Stretch).vertical(AlignVertical::End);
    assert_eq!(a.render(4, 2), rows(&["    ", "----"]));
    let a = align(divider('|').vertical())
        .horizontal(AlignHorizontal::End)
        .vertical(AlignVertical::Stretch);
    assert_eq!(a.render(3, 2), rows(&["  |", "  |"]));
}

#[test]
fn align_gives_the_child_no_more_than_there_is() {
    let a = align(text("abcdef"));
    assert_eq!(a.render(3, 1), rows(&["abc"]));
    assert_eq!(a.render(3, 0), Vec::<Vec<char>>::new());
}

#[test]
fn border_min_size_adds_one_per_side() {
    assert_eq!(border(text("abc")).min_size(), (5, 3));
    assert_eq!(border(text("abc")).borders(no_sides()).min_size(), (3, 1));
    let top_and_right = Borders { left: None, right: Some('\\'), top: Some('_'), bottom: None };
    assert_eq!(border(text("abc")).borders(top_and_right).min_size(), (4, 2));
    assert_eq!(border(text("abc")).flex_factor(), None);
}

#[test]
fn border_draws_a_frame() {
    let b = Border::new(text("abc"));
    assert_eq!(b.render(5, 3), rows(&["+---+", "|abc|", "+---+"]));
    assert_eq!(b.render(7, 4), rows(&["+-----+", "|abc  |", "|     |", "+-----+"]));
    let b = border(text("abc")).corners(corners_round());
    assert_eq!(b.render(5, 3), rows(&[".---.", "|abc|", "`---'"]));
}

#[test]
fn border_never_renders_below_its_minimum() {
    let b = border(text("abc"));
    assert_eq!(b.render(0, 0), rows(&["+---+", "|abc|", "+---+"]));
    assert_eq!(b.render(2, 5), rows(&["+---+", "|abc|", "|   |", "|   |", "+---+"]));
}

#[test]
fn border_corners_need_both_sides() {
    let b = border(text("ab")).corners(corners_none());
    assert_eq!(b.render(4, 3), rows(&[" -- ", "|ab|", " -- "]));
    let top_and_right = Borders { left: None, right: Some('\\'), top: Some('_'), bottom: None };
    let b = border(text("ab")).borders(top_and_right).corners(corners_none());
    assert_eq!(b.render(3, 2), rows(&["__ ", "ab\\"]));
    let b = border(text("ab")).borders(top_and_right);
    assert_eq!(b.render(3, 2), rows(&["__+", "ab\\"]));
    let only_top = Borders { left: None, right: None, top: Some('='), bottom: None };
    let b = border(text("ab")).borders(only_top);
    assert_eq!(b.render(2, 2), rows(&["==", "ab"]));
    let b = border(text("ab")).borders(no_sides());
    assert_eq!(b.render(2, 1), rows(&["ab"]));
    assert_eq!(b.render(0, 0), rows(&["ab"]));
}

#[test]
fn border_child_overwrites_the_frame_where_it_is_too_big() {
    let inner = border(text("abc"));
    let outer = border(inner).borders(borders_selected());
    assert_eq!(outer.min_size(), (7, 5));
    assert_eq!(
        outer.render(7, 5),
        rows(&["+=====+", "|+---+|", "||abc||", "|+---+|", "+=====+"])
    );
    let squeezed = sizedbox(border(text("abc"))).width(3).height(1);
    assert_eq!(squeezed.render(3, 1), rows(&["+--"]));
}

#[test]
fn draw_frame_alone() {
    let frame = draw_frame(&borders_plain(), &corners_round(), 4, 3);
    assert_eq!(frame, rows(&[".--.", "|  |", "`--'"]));
    assert_eq!(draw_frame(&borders_plain(), &corners_round(), 0, 0), Vec::<Vec<char>>::new());
    let corners = Corners { top_left: Some('1'), top_right: Some('2'), bottom_left: Some('3'), bottom_right: Some('4') };
    assert_eq!(draw_frame(&borders_plain(), &corners, 2, 2), rows(&["12", "34"]));
}

#[test]
fn padding_adds_room() {
    let p = padding(text("x")).all(1);
    assert_eq!(p.min_size(), (3, 3));
    assert_eq!(p.render(3, 3), rows(&["   ", " x ", "   "]));
    let p = Padding::new(text("x")).left(2).top(1);
    assert_eq!(p.min_size(), (3, 2));
    assert_eq!(p.render(4, 2), rows(&["    ", "  x "]));
    let p = padding(text("x")).horizontal(1).vertical(2).right(3).bottom(0);
    assert_eq!(p.min_size(), (5, 3));
    assert_eq!((p.top, p.left, p.right, p.bottom), (2, 1, 3, 0));
    assert_eq!(p.flex_factor(), None);
}

#[test]
fn padding_leaves_the_child_nothing_where_there_is_no_room() {
    let p = padding(divider('-')).all(1);
    assert_eq!(p.render(2, 3), rows(&["  ", "  ", "  "]));
    assert_eq!(p.render(1, 1), rows(&[" "]));
    assert_eq!(p.render(4, 3), rows(&["    ", " -- ", "    "]));
}

#[test]
fn sizedbox_forces_extents() {
    let b = sizedbox(text("abc")).width(2);
    assert_eq!(b.min_size(), (2, 1));
    assert_eq!(b.render(5, 1), rows(&["ab   "]));
    let b = SizedBox::new(text("abc")).height(3);
    assert_eq!(b.min_size(), (3, 3));
    let b = sizedbox(divider('|').vertical()).width(3).height(2);
    assert_eq!(b.min_size(), (3, 2));
    assert_eq!(b.render(5, 3), rows(&[" |   ", " |   ", "     "]));
    let b = sizedbox(text("abc"));
    assert_eq!(b.min_size(), (3, 1));
    assert_eq!(b.render(4, 1), rows(&["abc "]));
    assert_eq!(b.flex_factor(), None);
}

#[test]
fn flexible_passes_through_and_has_a_weight() {
    let f = flexible(3, text("ab"));
    assert_eq!(f.min_size(), (2, 1));
    assert_eq!(f.render(3, 1), rows(&["ab "]));
    assert_eq!(f.flex_factor(), Some(3));
    assert_eq!(Flexible::new(-1, text("ab")).flex_factor(), Some(-1));
    assert_eq!(flexible(1, border(text("a"))).render(0, 0), rows(&["+-+", "|a|", "+-+"]));
    assert_eq!(align(flexible(3, text("ab"))).flex_factor(), None);
}

#[test]
fn stack_draws_later_children_over_earlier_ones() {
    let s = stack(vec![text("aaa").into_widget(), text(" b").into_widget()]);
    assert_eq!(s.render(3, 1), rows(&["aba"]));
    assert_eq!(s.min_size(), (3, 1));
    let s = Stack::new(vec![text("a").into_widget(), divider('|').vertical().into_widget(), border(text("x")).into_widget()]);
    assert_eq!(s.min_size(), (3, 3));
    assert_eq!(s.flex_factor(), None);
    let empty = Stack::new(Vec::<AnyWidget>::new());
    assert_eq!(empty.min_size(), (0, 0));
    assert_eq!(empty.render(2, 1), rows(&["  "]));
}

#[test]
fn column_stacks_children_downwards() {
    let c = ntrade_advance::ui::widgets::column::column(vec![text("a"), text("bcd")]);
    assert_eq!(c.min_size(), (3, 2));
    assert_eq!(c.render(3, 3), rows(&["a  ", "bcd", "   "]));
    assert_eq!(c.allocate(3), vec![1, 1]);
    assert_eq!(c.flex_factor(), None);
}

#[test]
fn column_gives_spare_rows_to_flexible_children() {
    let c = ntrade_advance::ui::widgets::column::column(vec![
        text("a").into_widget(),
        flexible(1, divider('|').vertical()).into_widget(),
        text("z").into_widget(),
    ]);
    assert_eq!(c.min_size(), (1, 3));
    assert_eq!(c.allocate(5), vec![1, 3, 1]);
    assert_eq!(c.render(1, 5), rows(&["a", "|", "|", "|", "z"]));
    assert_eq!(c.allocate(2), vec![1, 1, 1]);
    assert_eq!(c.render(1, 2), rows(&["a", "|"]));
}

#[test]
fn column_draws_the_first_child_even_without_room() {
    let c = ntrade_advance::ui::widgets::column::column(vec![text("a"), text("b")]);
    assert_eq!(c.render(1, 0), Vec::<Vec<char>>::new());
    assert_eq!(c.render(1, 1), rows(&["a"]));
}

#[test]
fn column_shares_by_weight_and_leaves_the_remainder() {
    let c = ntrade_advance::ui::widgets::column::column(vec![
        flexible(1, text("a")),
        flexible(1, text("b")),
    ]);
    assert_eq!(c.allocate(5), vec![2, 2]);
    assert_eq!(c.render(1, 5), rows(&["a", " ", "b", " ", " "]));
    let c = ntrade_advance::ui::widgets::column::column(vec![
        flexible(1, text("a")),
        flexible(2, text("b")),
    ]);
    assert_eq!(c.allocate(12), vec![4, 7]);
    let c = ntrade_advance::ui::widgets::column::column(vec![
        flexible(0, text("a")),
        flexible(0, text("b")),
    ]);
    assert_eq!(c.allocate(12), vec![1, 1]);
}

#[test]
fn row_flexible_child_takes_the_spare_width() {
    let r = row(vec![flexible(1, text("aaaa")).into_widget(), text("bbbbbb").into_widget()]);
    assert_eq!(r.min_size(), (10, 1));
    assert_eq!(r.allocate(20), vec![14, 6]);
    assert_eq!(r.allocate(20).iter().sum::<u16>(), 20);
    assert_eq!(r.render(20, 1), rows(&["aaaa          bbbbbb"]));
    assert_eq!(r.flex_factor(), None);
}

#[test]
fn row_repairs_the_remainder_and_column_does_not() {
    let r = Row::new(vec![flexible(1, text("a")), flexible(1, text("b"))]);
    assert_eq!(r.allocate(5), vec![3, 2]);
    assert_eq!(r.allocate(5).iter().sum::<u16>(), 5);
    assert_eq!(r.render(5, 1), rows(&["a  b "]));
    let c = ntrade_advance::ui::widgets::column::Column::new(vec![
        flexible(1, text("a")),
        flexible(1, text("b")),
    ]);
    assert_eq!(c.allocate(5), vec![2, 2]);
    assert_eq!(c.allocate(5).iter().sum::<u16>(), 4);
    let r = row(vec![flexible(1, text("a")), flexible(1, text("b")), flexible(1, text("c"))]);
    assert_eq!(r.allocate(8), vec![3, 3, 2]);
}

#[test]
fn row_hands_each_child_one_more_at_most() {
    let r = row(vec![text("a"), text("b")]);
    assert_eq!(r.allocate(10), vec![2, 2]);
    assert_eq!(r.render(10, 1), rows(&["a b       "]));
    assert_eq!(r.allocate(3), vec![2, 1]);
    assert_eq!(r.allocate(1), vec![1, 1]);
    assert_eq!(r.render(1, 1), rows(&["a"]));
}

#[test]
fn row_of_nothing() {
    let r = Row::new(Vec::<AnyWidget>::new());
    assert_eq!(r.min_size(), (0, 0));
    assert_eq!(r.allocate(7), Vec::<u16>::new());
    assert_eq!(r.render(2, 2), rows(&["  ", "  "]));
}

#[test]
fn row_with_dividers_fills_widths() {
    let r = row(vec![
        text("ab").into_widget(),
        flexible(1, progress_bar(1, 1, '#', '>', '.')).into_widget(),
        text("yz").into_widget(),
    ]);
    assert_eq!(r.min_size(), (9, 1));
    assert_eq!(r.render(12, 1), rows(&["ab########yz"]));
}

#[test]
fn layout_arithmetic() {
    assert_eq!(total_of(&vec![1, 2, 3]), 6);
    assert_eq!(total_of(&vec![]), 0);
    assert_eq!(largest_of(&vec![1, 5, 3]), 5);
    assert_eq!(largest_of(&vec![]), 0);
    assert_eq!(total_flex(&vec![Some(2), None, Some(3)]), 5);
    assert_eq!(distribute(&vec![4, 6], &vec![Some(1), None], 20), vec![14, 6]);
    assert_eq!(distribute(&vec![4, 6], &vec![Some(1), None], 5), vec![4, 6]);
    assert_eq!(distribute(&vec![1, 1, 1], &vec![Some(1), Some(1), Some(1)], 8), vec![2, 2, 2]);
    assert_eq!(distribute(&vec![0], &vec![Some(2147483647)], 65535), vec![65535]);
    assert_eq!(left_over(&vec![2, 2, 2], 8), 2);
    assert_eq!(left_over(&vec![2, 2, 2], 6), 0);
    assert_eq!(left_over(&vec![65535, 65535, 65535], 7), 0);
    assert_eq!(repair(vec![2, 2, 2], 8), vec![3, 3, 2]);
    assert_eq!(repair(vec![2, 2, 2], 20), vec![3, 3, 3]);
    assert_eq!(repair(vec![2, 2, 2], 3), vec![2, 2, 2]);
}

#[test]
fn children_are_measured_and_painted() {
    let children = into_widgets(vec![text("ab").into_widget(), flexible(2, text("c")).into_widget()]);
    let (widths, heights, weights) = measure_children(&children);
    assert_eq!(widths, vec![2, 1]);
    assert_eq!(heights, vec![1, 1]);
    assert_eq!(weights, vec![None, Some(2)]);
    assert_eq!(paint_children(&children, &vec![3, 2], Axis::Across, 6, 1), rows(&["ab c  "]));
    assert_eq!(paint_children(&children, &vec![1, 1], Axis::Down, 2, 3), rows(&["ab", "c ", "  "]));
    assert_eq!(paint_children(&children, &vec![9, 1], Axis::Across, 6, 1), rows(&["ab    "]));
}

#[test]
fn builder_asks_its_producer_each_time() {
    let b = builder(|| text("x").into_widget());
    assert_eq!(b.render(2, 1), rows(&["x "]));
    assert_eq!(b.min_size(), (1, 1));
    assert_eq!(b.flex_factor(), None);
    let calls = std::cell::Cell::new(0u32);
    let counting = BuilderWidget::new(|| {
        calls.set(calls.get() + 1);
        text("y").into_widget()
    });
    counting.min_size();
    counting.render(1, 1);
    assert_eq!(calls.get(), 2);
    let inside = padding(builder(|| border(text("p")).into_widget())).left(1);
    assert_eq!(inside.render(4, 3), rows(&[" +-+", " |p|", " +-+"]));
}

#[test]
fn button_is_a_framed_centred_label() {
    let b = button("OK");
    assert_eq!(b.min_size(), (4, 3));
    assert_eq!(b.render(6, 3), rows(&[".----.", "| OK |", "`----'"]));
    let b = Button::new("OK").selected(true);
    assert_eq!(b.render(6, 3), rows(&[".====.", "| OK |", "`===='"]));
    assert_eq!(b.render(0, 0), rows(&[".==.", "|OK|", "`=='"]));
    assert_eq!(b.flex_factor(), None);
    assert_eq!(b.build_widget().render(6, 3), b.render(6, 3));
    let held = sizedbox(button("Exit").selected(false)).width(8);
    assert_eq!(held.render(8, 3), rows(&[".------.", "| Exit |", "`------'"]));
}

#[test]
fn button_takes_its_own_styles() {
    let mut b = button("a");
    b.borders = Some(Borders { left: Some('['), right: Some(']'), top: None, bottom: None });
    b.corners_selected = Some(corners_none());
    assert_eq!(b.render(3, 1), rows(&["[a]"]));
    let b = b.selected(true);
    assert_eq!(b.render(3, 3), rows(&[" = ", "|a|", " = "]));
}

#[test]
fn rendering_twice_gives_the_same_canvas() {
    let tree = border(ntrade_advance::ui::widgets::column::column(vec![
        align(text("Title")).into_widget(),
        divider('-').into_widget(),
        flexible(1, row(vec![text("left").into_widget(), flexible(1, align(button("Go"))).into_widget()])).into_widget(),
        padding(progress_bar(1, 3, '/', '|', ' ')).horizontal(2).into_widget(),
    ]));
    let first = tree.render(30, 10);
    let second = tree.render(30, 10);
    assert_eq!(first, second);
    assert_eq!(first.len(), 10);
    assert!(first.iter().all(|line| line.len() == 30));
}

#[test]
fn every_widget_fills_its_allocation() {
    let widgets: Vec<AnyWidget> = vec![
        text("hello world").max_width(5).into_widget(),
        ntrade_advance::ui::widgets::image::image("ab\ncd").into_widget(),
        divider('-').into_widget(),
        divider('|').vertical().into_widget(),
        progress_bar(1, 2, '#', '>', ' ').into_widget(),
        align(text("a")).into_widget(),
        padding(text("a")).all(2).into_widget(),
        sizedbox(text("abc")).width(9).height(9).into_widget(),
        flexible(1, text("a")).into_widget(),
        ntrade_advance::ui::widgets::column::column(vec![text("a"), text("b")]).into_widget(),
        row(vec![text("a"), text("b")]).into_widget(),
        stack(vec![text("a"), text("b")]).into_widget(),
    ];
    for widget in &widgets {
        for (w, h) in [(0u16, 0u16), (1, 1), (3, 2), (2, 7), (10, 4)] {
            let canvas = widget.render(w, h);
            assert_eq!(canvas.len(), h as usize);
            assert!(canvas.iter().all(|line| line.len() == w as usize));
        }
    }
}

#[test]
fn well_formed_widgets_pass_the_check() {
    assert!(text("abc").is_well_formed());
    assert!(divider('-').is_well_formed());
    assert!(progress_bar(1, 2, '#', '>', ' ').is_well_formed());
    assert!(ntrade_advance::ui::widgets::image::image("a\nb").is_well_formed());
    assert!(align(text("abc")).is_well_formed());
    assert!(flexible(1, text("abc")).is_well_formed());
    assert!(sizedbox(text("abc")).width(65535).height(65535).is_well_formed());
    assert!(padding(text("abc")).all(100).is_well_formed());
    assert!(border(text("abc")).is_well_formed());
    assert!(button("abc").is_well_formed());
    assert!(stack(vec![text("a"), text("b")]).is_well_formed());
    assert!(row(vec![flexible(1, text("a")), flexible(2, text("b"))]).is_well_formed());
    assert!(ntrade_advance::ui::widgets::column::column(vec![text("a"), text("b")]).is_well_formed());
    assert!(row(vec![flexible(0, text("a"))]).is_well_formed());
}

#[test]
fn sizes_that_do_not_fit_fail_the_check() {
    let long: String = std::iter::repeat('x').take(65536).collect();
    assert!(!text(&long).is_well_formed());
    assert!(text(&long[..65535]).is_well_formed());
    assert!(text(&long).max_width(70).is_well_formed() == false);
    assert!(!padding(text("abc")).left(65533).is_well_formed());
    assert!(padding(text("abc")).left(65532).is_well_formed());
    assert!(!padding(text("abc")).top(65535).is_well_formed());
    assert!(!border(sizedbox(text("a")).width(65534)).is_well_formed());
    assert!(border(sizedbox(text("a")).width(65533)).is_well_formed());
    assert!(!border(sizedbox(text("a")).height(65535)).is_well_formed());
    assert!(!align(padding(text("abc")).left(65535)).is_well_formed());
    assert!(!flexible(1, padding(text("abc")).left(65535)).is_well_formed());
    assert!(!sizedbox(padding(text("abc")).left(65535)).is_well_formed());
    assert!(!stack(vec![text("a").into_widget(), padding(text("abc")).left(65535).into_widget()]).is_well_formed());
    assert!(!row(vec![sizedbox(text("a")).width(40000), sizedbox(text("b")).width(40000)]).is_well_formed());
    assert!(ntrade_advance::ui::widgets::column::column(vec![
        sizedbox(text("a")).width(40000),
        sizedbox(text("b")).width(40000)
    ])
    .is_well_formed());
    assert!(!ntrade_advance::ui::widgets::column::column(vec![
        sizedbox(text("a")).height(40000),
        sizedbox(text("b")).height(40000)
    ])
    .is_well_formed());
    assert!(!row(vec![flexible(-1, text("a")), flexible(2, text("b"))]).is_well_formed());
    assert!(row(vec![flexible(2147483647, text("a")), flexible(1, text("b"))]).is_well_formed());
    assert!(row(vec![flexible(2147483646, text("a")), flexible(1, text("b"))]).is_well_formed());
    let mut wide = button("abc");
    wide.text = long.clone();
    assert!(!wide.is_well_formed());
}

#[test]
fn checks_on_plain_values() {
    assert!(can_lay_out(&vec![1, 2], &vec![None, Some(3)]));
    assert!(!can_lay_out(&vec![1, 2], &vec![None]));
    assert!(!can_lay_out(&vec![65535, 1], &vec![None, None]));
    assert!(can_lay_out(&vec![65535, 0], &vec![None, None]));
    assert!(can_lay_out(&vec![1], &vec![Some(-5)]));
    assert!(can_lay_out(&vec![1, 1], &vec![Some(-5), Some(5)]));
    assert!(!can_lay_out(&vec![1, 1], &vec![Some(-5), Some(6)]));
    assert!(can_lay_out(&vec![1, 1], &vec![Some(2147483647), Some(2147483647)]));
    assert!(can_lay_out(&vec![], &vec![]));
    assert!(lines_can_fit(&vec![vec!['a'], vec![]]));
    assert!(!lines_can_fit(&vec![vec!['a'; 65536]]));
    assert!(!lines_can_fit(&vec![Vec::new(); 65536]));
    assert!(lines_can_fit(&vec![Vec::new(); 65535]));
    assert!(children_well_formed(&Vec::new()));
    assert!(children_well_formed(&vec![text("a").into_widget()]));
    assert!(!children_well_formed(&vec![text("a").into_widget(), padding(text("a")).all(40000).into_widget()]));
}

#[test]
fn try_render_refuses_what_does_not_fit() {
    let good = border(text("ab")).into_widget();
    assert_eq!(good.try_render(4, 3), Some(rows(&["+--+", "|ab|", "+--+"])));
    assert_eq!(good.try_render(0, 0), Some(rows(&["+--+", "|ab|", "+--+"])));
    let bad = padding(text("ab")).all(40000).into_widget();
    assert_eq!(bad.try_render(4, 3), None);
    assert!(try_render_ui(&bad).is_none());
    let out = try_render_ui(&good).unwrap();
    assert!(out.starts_with("+---------------------------------------------------+\n|ab "));
    assert_eq!(out.lines().count(), 30);
}

#[test]
fn wide_layouts_do_not_overflow() {
    let r = row(vec![
        sizedbox(divider('-')).width(30000).into_widget(),
        flexible(1, divider('=')).into_widget(),
        sizedbox(divider('-')).width(30000).into_widget(),
    ]);
    assert!(r.is_well_formed());
    assert_eq!(r.allocate(65535), vec![30000, 5535, 30000]);
    let canvas = r.render(65535, 1);
    assert_eq!(canvas[0].len(), 65535);
    assert_eq!(canvas[0][29999], '-');
    assert_eq!(canvas[0][30000], '=');
    assert_eq!(canvas[0][35534], '=');
    assert_eq!(canvas[0][35535], '-');
    assert_eq!(r.allocate(100), vec![30000, 1, 30000]);
    let clipped = r.render(100, 1);
    assert!(clipped[0].iter().all(|c| *c == '-'));
}

#[test]
fn negative_weights_share_nothing_out() {
    let r = row(vec![flexible(-1, text("a"))]);
    assert!(r.is_well_formed());
    assert_eq!(r.allocate(5), vec![2]);
    assert_eq!(r.render(5, 1), rows(&["a    "]));
    let c = ntrade_advance::ui::widgets::column::column(vec![
        flexible(-3, text("a")),
        flexible(3, text("b")),
    ]);
    assert!(c.is_well_formed());
    assert_eq!(c.allocate(9), vec![1, 1]);
    assert_eq!(total_flex(&vec![Some(-3), Some(3), None]), 0);
    assert_eq!(total_flex(&vec![Some(-2147483648), Some(-2147483648)]), -4294967296);
    assert_eq!(distribute(&vec![1, 1], &vec![Some(-3), Some(3)], 9), vec![1, 1]);
    assert_eq!(
        distribute(&vec![0, 0], &vec![Some(2147483647), Some(2147483647)], 100),
        vec![50, 50]
    );
}

#[test]
fn builder_try_render_asks_and_checks() {
    let good = builder(|| border(text("p")).into_widget());
    assert_eq!(good.try_render(3, 3), Some(rows(&["+-+", "|p|", "+-+"])));
    let bad = builder(|| padding(text("p")).all(40000).into_widget());
    assert_eq!(bad.try_render(3, 3), None);
}
