use termview::{centered_rect, cursor_cell, panes, popup_area, visible_range, Area, ScrollState};

fn area(x: u16, y: u16, width: u16, height: u16) -> Area {
    Area { x, y, width, height }
}

#[test]
fn popup_is_centred_forty_by_ten_percent() {
    assert_eq!(popup_area(area(0, 0, 100, 100)), area(30, 45, 40, 10));
}

#[test]
fn centered_rect_on_offset_area() {
    assert_eq!(centered_rect(50, 50, area(10, 20, 100, 100)), area(35, 45, 50, 50));
}

#[test]
fn panes_split_twenty_eighty_inside_margin() {
    let (side, main) = panes(area(0, 0, 102, 52));
    assert_eq!(side, area(1, 1, 20, 50));
    assert_eq!(main, area(21, 1, 80, 50));
}

#[test]
fn visible_range_from_clamped_offset() {
    let mut s = ScrollState::new();
    for _ in 0..45 {
        s.scroll_down(50, 5);
    }
    assert_eq!(visible_range(50, &s, 5), (45, 50));
    assert_eq!(visible_range(50, &s, 10), (40, 50));
    assert_eq!(visible_range(3, &s, 10), (0, 3));
    assert_eq!(visible_range(0, &s, 10), (0, 0));
}

#[test]
fn visible_range_window_in_middle() {
    let mut s = ScrollState::new();
    for _ in 0..7 {
        s.scroll_down(100, 10);
    }
    assert_eq!(visible_range(100, &s, 10), (7, 17));
}

#[test]
fn cursor_cell_inside_popup_border() {
    assert_eq!(cursor_cell(area(30, 45, 40, 10), 0), (31, 46));
    assert_eq!(cursor_cell(area(30, 45, 40, 10), 5), (36, 46));
}

#[test]
fn cursor_cell_caps_at_largest_cell() {
    assert_eq!(cursor_cell(area(65530, 65535, 4, 1), 10), (65535, 65535));
    assert_eq!(cursor_cell(area(0, 0, 4, 1), 70000), (65535, 1));
}

#[test]
fn centered_rect_with_odd_percentages_stays_inside() {
    let r = area(3, 4, 37, 23);
    let c = centered_rect(15, 33, r);
    assert!(c.x >= r.x && c.x + c.width <= r.x + r.width);
    assert!(c.y >= r.y && c.y + c.height <= r.y + r.height);
}

#[test]
fn panes_span_inner_height_within_inner_width() {
    let size = area(5, 7, 61, 19);
    let (side, main) = panes(size);
    for p in [side, main] {
        assert_eq!(p.y, 8);
        assert_eq!(p.height, 17);
        assert!(p.x >= 6 && p.x + p.width <= 65);
    }
}

#[test]
fn panes_of_screen_too_small_for_margin_are_empty() {
    let (side, main) = panes(area(0, 0, 1, 1));
    assert_eq!(side.height, 0);
    assert_eq!(main.height, 0);
    assert_eq!(side.width, 0);
    assert_eq!(main.width, 0);
}

#[test]
fn popup_on_uneven_screen_is_centred_within_a_cell() {
    let size = area(0, 0, 83, 37);
    let c = popup_area(size);
    let (w, h) = (83i64, 37i64);
    let (cx, cy, cw, ch) = (c.x as i64, c.y as i64, c.width as i64, c.height as i64);
    assert!((100 * cw - w * 40).abs() <= 100);
    assert!((100 * ch - h * 10).abs() <= 100);
    assert!((cx - (w - (cx + cw))).abs() <= 1);
    assert!((cy - (h - (cy + ch))).abs() <= 1);
}
