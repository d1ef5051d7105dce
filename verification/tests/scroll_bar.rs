use plato_core::geom::{Point, Rectangle};
use plato_core::scroll_bar::{FingerStatus, Repaint, ScrollBar};

fn track() -> Rectangle {
    Rectangle::new(0, 100, 10, 200)
}

#[test]
fn new_scroll_bar_is_idle() {
    let bar = ScrollBar::new(track(), 2, 5);
    assert_eq!(bar.current_page, 2);
    assert_eq!(bar.total_pages, 5);
    assert!(!bar.is_active());
    assert_eq!(bar.last_y(), -1);
    assert_eq!(*bar.rect(), track());
}

#[test]
fn update_repaints_only_on_change() {
    let mut bar = ScrollBar::new(track(), 0, 4);
    assert!(!bar.update(0, 4));
    assert!(bar.update(1, 4));
    assert_eq!(bar.current_page, 1);
    assert!(!bar.update(1, 4));
    assert!(bar.update(1, 6));
    assert_eq!(bar.total_pages, 6);
    assert!(!bar.update(1, 6));
}

#[test]
fn thumb_divides_track_among_pages() {
    // Track 100 high, 4 pages: the thumb is 25 high and travels 75.
    let mut bar = ScrollBar::new(track(), 0, 4);
    assert_eq!(bar.thumb_rect(5), Rectangle::new(0, 100, 10, 125));
    bar.update(1, 4);
    assert_eq!(bar.thumb_rect(5), Rectangle::new(0, 125, 10, 150));
    bar.update(2, 4);
    assert_eq!(bar.thumb_rect(5), Rectangle::new(0, 150, 10, 175));
    bar.update(3, 4);
    assert_eq!(bar.thumb_rect(5), Rectangle::new(0, 175, 10, 200));
}

#[test]
fn thumb_keeps_minimum_height() {
    // 50 pages would give a 2 pixel thumb; the minimum is 20.
    let bar = ScrollBar::new(track(), 49, 50);
    assert_eq!(bar.thumb_rect(20), Rectangle::new(0, 180, 10, 200));
    let bar = ScrollBar::new(track(), 0, 50);
    assert_eq!(bar.thumb_rect(20), Rectangle::new(0, 100, 10, 120));
}

#[test]
fn thumb_never_taller_than_track() {
    // A 10 pixel track with a 20 pixel minimum: the thumb fills the track,
    // and with one pixel of travel the last page overhangs it by one pixel.
    let short = Rectangle::new(0, 0, 10, 10);
    let bar = ScrollBar::new(short, 0, 3);
    assert_eq!(bar.thumb_rect(20), Rectangle::new(0, 0, 10, 10));
    let bar = ScrollBar::new(short, 2, 3);
    assert_eq!(bar.thumb_rect(20), Rectangle::new(0, 1, 10, 11));
}

#[test]
fn single_page_has_no_visible_thumb() {
    let bar = ScrollBar::new(track(), 0, 1);
    assert_eq!(bar.visible_thumb(5), None);
    assert_eq!(bar.thumb_rect(5), Rectangle::new(0, 100, 10, 200));
    let bar = ScrollBar::new(track(), 0, 0);
    assert_eq!(bar.visible_thumb(5), None);
    let bar = ScrollBar::new(track(), 1, 2);
    assert_eq!(bar.visible_thumb(5), Some(Rectangle::new(0, 150, 10, 200)));
}

#[test]
fn page_from_y_maps_travel_to_pages() {
    let bar = ScrollBar::new(track(), 0, 4);
    // usable travel is 75 pixels, from y = 100 to y = 175
    assert_eq!(bar.page_from_y(100, 5), 0);
    assert_eq!(bar.page_from_y(124, 5), 0);
    assert_eq!(bar.page_from_y(125, 5), 1);
    assert_eq!(bar.page_from_y(140, 5), 1);
    assert_eq!(bar.page_from_y(150, 5), 2);
    assert_eq!(bar.page_from_y(174, 5), 2);
    assert_eq!(bar.page_from_y(175, 5), 3);
}

#[test]
fn page_from_y_clamps_outside_track() {
    let bar = ScrollBar::new(track(), 0, 4);
    assert_eq!(bar.page_from_y(-50, 5), 0);
    assert_eq!(bar.page_from_y(99, 5), 0);
    assert_eq!(bar.page_from_y(500, 5), 3);
    let single = ScrollBar::new(track(), 0, 1);
    assert_eq!(single.page_from_y(180, 5), 0);
    let empty = ScrollBar::new(track(), 0, 0);
    assert_eq!(empty.page_from_y(180, 5), 0);
}

#[test]
fn page_from_y_is_monotone() {
    let bar = ScrollBar::new(track(), 0, 7);
    let mut last = 0;
    for y in 80..230 {
        let p = bar.page_from_y(y, 5);
        assert!(p >= last);
        assert!(p < 7);
        last = p;
    }
    assert_eq!(last, 6);
}

#[test]
fn thumb_top_not_below_finger() {
    let bar = ScrollBar::new(track(), 0, 7);
    for y in 100..200 {
        let mut b = ScrollBar::new(track(), 0, 7);
        let p = bar.page_from_y(y, 5);
        b.update(p, 7);
        assert!(b.thumb_rect(5).min.y <= y);
    }
}

#[test]
fn press_on_track_scrolls_to_page() {
    let mut bar = ScrollBar::new(track(), 0, 4);
    let r = bar.handle_finger(FingerStatus::Down, Point::new(5, 160), 5);
    assert!(r.handled);
    assert_eq!(r.scroll_to, Some(2));
    assert_eq!(r.repaint, Some(Repaint::Gui));
    assert!(bar.is_active());
    assert_eq!(bar.last_y(), 160);
    assert_eq!(bar.current_page, 2);
}

#[test]
fn press_on_shown_page_asks_nothing() {
    let mut bar = ScrollBar::new(track(), 0, 4);
    let r = bar.handle_finger(FingerStatus::Down, Point::new(5, 101), 5);
    assert!(r.handled);
    assert_eq!(r.scroll_to, None);
    assert_eq!(r.repaint, None);
    assert!(bar.is_active());
}

#[test]
fn press_outside_track_is_ignored() {
    let mut bar = ScrollBar::new(track(), 0, 4);
    let r = bar.handle_finger(FingerStatus::Down, Point::new(20, 160), 5);
    assert!(!r.handled);
    assert_eq!(r.scroll_to, None);
    assert!(!bar.is_active());
    assert_eq!(bar.current_page, 0);
    // the bottom edge is outside
    let r = bar.handle_finger(FingerStatus::Down, Point::new(5, 200), 5);
    assert!(!r.handled);
}

#[test]
fn drag_scrolls_fast() {
    let mut bar = ScrollBar::new(track(), 0, 4);
    bar.handle_finger(FingerStatus::Down, Point::new(5, 100), 5);
    let r = bar.handle_finger(FingerStatus::Motion, Point::new(50, 180), 5);
    assert!(r.handled);
    assert_eq!(r.scroll_to, Some(3));
    assert_eq!(r.repaint, Some(Repaint::FastMono));
    assert_eq!(bar.current_page, 3);
    // moving at the same height does nothing but is consumed
    let r = bar.handle_finger(FingerStatus::Motion, Point::new(40, 180), 5);
    assert!(r.handled);
    assert_eq!(r.scroll_to, None);
    assert_eq!(r.repaint, None);
}

#[test]
fn release_ends_drag() {
    let mut bar = ScrollBar::new(track(), 0, 4);
    bar.handle_finger(FingerStatus::Down, Point::new(5, 130), 5);
    let r = bar.handle_finger(FingerStatus::Up, Point::new(5, 130), 5);
    assert!(r.handled);
    assert_eq!(r.repaint, Some(Repaint::Gui));
    assert_eq!(r.scroll_to, None);
    assert!(!bar.is_active());
    assert_eq!(bar.current_page, 1);
    // a later release or motion is not for the bar
    let r = bar.handle_finger(FingerStatus::Up, Point::new(5, 130), 5);
    assert!(!r.handled);
    let r = bar.handle_finger(FingerStatus::Motion, Point::new(5, 190), 5);
    assert!(!r.handled);
    assert_eq!(bar.current_page, 1);
}

#[test]
fn thumb_top_selects_no_later_page() {
    for total in 1..12usize {
        for p in 0..total {
            let bar = ScrollBar::new(track(), p, total);
            let top = bar.thumb_rect(5).min.y;
            assert!(bar.page_from_y(top, 5) <= p);
        }
    }
    // with 4 pages and 75 pixels of travel the thumb top selects its own page
    for p in 0..4usize {
        let bar = ScrollBar::new(track(), p, 4);
        assert_eq!(bar.page_from_y(bar.thumb_rect(5).min.y, 5), p);
    }
}

#[test]
fn every_page_reachable_inside_track() {
    for total in 2..12usize {
        let bar = ScrollBar::new(track(), 0, total);
        for p in 0..total {
            assert!((100..200).any(|y| bar.page_from_y(y, 5) == p));
        }
    }
}
