use termview::ScrollState;

#[test]
fn scroll_down_sixty_times_clamps_at_forty() {
    let mut s = ScrollState::new();
    for _ in 0..60 {
        s.scroll_down(50, 10);
    }
    assert_eq!(s.vertical_scroll, 40);
    assert_eq!(s.effective(50, 10), 40);
}

#[test]
fn scroll_up_floors_at_zero() {
    let mut s = ScrollState::new();
    s.scroll_up();
    assert_eq!(s.vertical_scroll, 0);
    s.scroll_down(5, 2);
    s.scroll_down(5, 2);
    s.scroll_up();
    assert_eq!(s.vertical_scroll, 1);
}

#[test]
fn scroll_down_does_nothing_when_list_fits() {
    let mut s = ScrollState::new();
    s.scroll_down(3, 10);
    s.scroll_down(10, 10);
    assert_eq!(s.vertical_scroll, 0);
    assert_eq!(s.effective(3, 10), 0);
}

#[test]
fn effective_offset_clamps_after_resize_without_losing_stored() {
    let mut s = ScrollState::new();
    for _ in 0..30 {
        s.scroll_down(50, 10);
    }
    assert_eq!(s.vertical_scroll, 30);
    assert_eq!(s.effective(50, 40), 10);
    assert_eq!(s.vertical_scroll, 30);
    assert_eq!(s.effective(50, 10), 30);
}

#[test]
fn mixed_scrolls_stay_in_range() {
    let mut s = ScrollState::new();
    let steps = [true, true, false, true, true, true, true, false, true, true];
    for down in steps {
        if down {
            s.scroll_down(7, 3);
        } else {
            s.scroll_up();
        }
        assert!(s.vertical_scroll <= 4);
        assert!(s.effective(7, 3) <= 4);
    }
    assert_eq!(s.vertical_scroll, 4);
}

#[test]
fn max_offset_is_count_minus_height_or_zero() {
    assert_eq!(termview::scroll::max_offset(50, 10), 40);
    assert_eq!(termview::scroll::max_offset(10, 10), 0);
    assert_eq!(termview::scroll::max_offset(3, 10), 0);
}
