//! Candidate window sizing, commands and painting.

use karukan_tsf::candidate::{
    classify_message, decimal_of, dpi_changed_placement, height_for, paint_items, placement_fits,
    rows_fit_of, size_fits_of, width_fits_of, width_for, PixelRect, RowLayout, HIGHLIGHT_TEXT_COLOR,
    TEXT_COLOR,
    CandidateMetrics, CandidateWindow, MessageKind, WindowCommand, WM_DPICHANGED, WM_PAINT,
};

fn metrics() -> CandidateMetrics {
    CandidateMetrics { item_height: 24, padding: 4, char_width: 14, label_width: 28, min_width: 120 }
}

fn layout(item_height: i32, padding: i32, text_y_offset: i32) -> RowLayout {
    RowLayout { item_height, padding, text_y_offset, paint_right: 200 }
}

fn strings(v: &[&str]) -> Vec<String> {
    v.iter().map(|s| s.to_string()).collect()
}

#[test]
fn height_has_one_row_per_candidate() {
    assert_eq!(height_for(3, &metrics()), 3 * 24 + 8);
    assert_eq!(height_for(1, &metrics()), 32);
    assert_eq!(height_for(0, &metrics()), 32);
}

#[test]
fn width_fits_longest_candidate_or_minimum() {
    assert_eq!(width_for(&strings(&["今日", "京"]), &metrics()), 120);
    assert_eq!(width_for(&strings(&["とても長い候補の文字列"]), &metrics()), 11 * 14 + 28 + 8);
    assert_eq!(width_for(&Vec::new(), &metrics()), 120);
    let wide = CandidateMetrics { min_width: 10, ..metrics() };
    assert_eq!(width_for(&Vec::new(), &wide), 4 * 14 + 28 + 8);
}

#[test]
fn show_resizes_repaints_and_shows() {
    let mut w = CandidateWindow::new(0x1234);
    let cmds = w.show(&strings(&["今日", "京", "恭"]), 1, &metrics());
    assert_eq!(
        cmds,
        vec![WindowCommand::Resize { width: 120, height: 80 }, WindowCommand::Repaint, WindowCommand::Show]
    );
    assert_eq!(w.candidates, strings(&["今日", "京", "恭"]));
    assert_eq!(w.selected, 1);
    assert_eq!(w.set_selected(2), vec![WindowCommand::Repaint]);
    assert_eq!(w.selected, 2);
    assert_eq!(w.move_to(10, -5), vec![WindowCommand::MoveTo { x: 10, y: -5 }]);
    assert_eq!(w.hide_window(), vec![WindowCommand::Hide]);
}

#[test]
fn destroyed_window_does_nothing() {
    let mut w = CandidateWindow::new(0x1234);
    assert_eq!(w.destroy(), vec![WindowCommand::Destroy]);
    assert_eq!(w.hwnd, 0);
    assert_eq!(w.destroy(), Vec::<WindowCommand>::new());
    assert!(w.show(&strings(&["a"]), 0, &metrics()).is_empty());
    assert!(w.candidates.is_empty());
    assert!(w.hide_window().is_empty());
    assert!(w.set_selected(3).is_empty());
    assert_eq!(w.selected, 0);
    assert!(w.move_to(1, 2).is_empty());
}

#[test]
fn window_without_handle_does_nothing() {
    let mut w = CandidateWindow::new(0);
    assert!(w.show(&strings(&["a"]), 0, &metrics()).is_empty());
    assert!(w.destroy().is_empty());
}

#[test]
fn paint_rows_and_labels() {
    let items = paint_items(&strings(&["今日", "京"]), 1, &layout(24, 4, 3));
    assert_eq!(items.len(), 2);
    assert_eq!(items[0].y, 4);
    assert_eq!(items[1].y, 28);
    assert!(!items[0].highlighted);
    assert!(items[1].highlighted);
    assert_eq!(items[0].label, "1. 今日".encode_utf16().collect::<Vec<u16>>());
    assert_eq!(items[1].label, "2. 京".encode_utf16().collect::<Vec<u16>>());
}

#[test]
fn paint_at_96_dpi() {
    let items = paint_items(&strings(&["今日", "京"]), 1, &layout(24, 4, 3));
    assert_eq!((items[0].text_x, items[0].text_y), (4, 7));
    assert_eq!(items[0].text_color, TEXT_COLOR);
    assert_eq!(items[0].text_color, 0x00000000);
    assert_eq!(items[0].highlight, None);
    assert_eq!((items[1].text_x, items[1].text_y), (4, 31));
    assert_eq!(items[1].text_color, HIGHLIGHT_TEXT_COLOR);
    assert_eq!(items[1].text_color, 0x00FFFFFF);
    assert_eq!(items[1].highlight, Some(PixelRect { left: 0, top: 28, right: 200, bottom: 52 }));
}

#[test]
fn paint_with_selection_outside_highlights_nothing() {
    let items = paint_items(&strings(&["a", "b", "c"]), 5, &layout(10, 0, 0));
    assert!(items.iter().all(|i| !i.highlighted));
    assert!(items.iter().all(|i| i.highlight.is_none() && i.text_color == TEXT_COLOR));
    assert_eq!(items[2].y, 20);
}

#[test]
fn long_lists_number_past_nine() {
    let list: Vec<String> = (0..12).map(|i| format!("c{}", i)).collect();
    let items = paint_items(&list, 0, &layout(24, 4, 3));
    assert_eq!(items[11].label, "12. c11".encode_utf16().collect::<Vec<u16>>());
    assert_eq!(decimal_of(0), vec!['0']);
    assert_eq!(decimal_of(123), vec!['1', '2', '3']);
}

#[test]
fn messages_and_dpi_placement() {
    assert_eq!(classify_message(WM_PAINT), MessageKind::Paint);
    assert_eq!(classify_message(WM_DPICHANGED), MessageKind::DpiChanged);
    assert_eq!(classify_message(0x0001), MessageKind::Default);
    assert_eq!(dpi_changed_placement(10, 20, 110, 220), (10, 20, 100, 200));
    assert_eq!(dpi_changed_placement(-50, -40, 50, 60), (-50, -40, 100, 100));
}

#[test]
fn size_checks() {
    let m = metrics();
    assert!(size_fits_of(&strings(&["今日", "京"]), &m));
    assert!(width_fits_of(&Vec::new(), &m));
    let negative = CandidateMetrics { padding: -1, ..m };
    assert!(!size_fits_of(&strings(&["a"]), &negative));
    assert!(!width_fits_of(&strings(&["a"]), &negative));
    let huge = CandidateMetrics { char_width: i32::MAX, ..m };
    assert!(!width_fits_of(&strings(&["ab"]), &huge));
    assert!(!size_fits_of(&strings(&["ab"]), &huge));
    let tall = CandidateMetrics { item_height: i32::MAX / 2, ..m };
    assert!(width_fits_of(&strings(&["a", "b", "c"]), &tall));
    assert!(!size_fits_of(&strings(&["a", "b", "c"]), &tall));
    assert!(size_fits_of(&strings(&["a"]), &CandidateMetrics { item_height: 1000, ..m }));
}

#[test]
fn row_and_placement_checks() {
    assert!(rows_fit_of(3, &layout(24, 4, 3)));
    assert!(!rows_fit_of(3, &layout(-1, 4, 3)));
    assert!(!rows_fit_of(3, &layout(24, -4, 3)));
    assert!(!rows_fit_of(3, &layout(24, 4, -3)));
    assert!(rows_fit_of(usize::MAX, &layout(0, 4, 3)));
    assert!(!rows_fit_of(usize::MAX, &layout(0, i32::MAX, 1)));
    assert!(!rows_fit_of(3, &layout(i32::MAX, 4, 0)));
    assert!(!rows_fit_of(usize::MAX, &layout(1, 0, 0)));
    assert!(rows_fit_of(1, &layout(i32::MAX, 0, 0)));
    assert!(!rows_fit_of(1, &layout(i32::MAX, 0, 1)));
    assert!(placement_fits(0, 0, 100, 50));
    assert!(placement_fits(-100, -100, 100, 100));
    assert!(!placement_fits(i32::MIN, 0, i32::MAX, 10));
    assert!(!placement_fits(0, i32::MAX, 10, i32::MIN));
}
