use plato_core::definition_panel::{
    collect_page_locations, DefinitionPanel, PageTurn, PanelEvent, PanelLayout, ALL_DICTIONARIES,
    MAX_EXTRA_PAGES,
};
use plato_core::collatinus::{panel_content, LoadState, LOADING_HTML};
use plato_core::geom::{Point, Rectangle};
use plato_core::scroll_bar::FingerStatus;

fn pages_every_ten_up_to(last: usize) -> impl Fn(usize) -> Option<usize> {
    move |loc| if loc < last { Some(loc + 10) } else { None }
}

fn panel_rect() -> Rectangle {
    Rectangle::new(0, 0, 600, 300)
}

#[test]
fn collects_pages_until_none() {
    assert_eq!(collect_page_locations(pages_every_ten_up_to(30)), vec![0, 10, 20, 30]);
    assert_eq!(collect_page_locations(|_| None), vec![0]);
}

#[test]
fn collecting_pages_stops_at_limit() {
    let locs = collect_page_locations(|loc| Some(loc + 1));
    assert_eq!(locs.len(), MAX_EXTRA_PAGES + 1);
    assert_eq!(locs.len(), 51);
    assert_eq!(locs[50], 50);
}

#[test]
fn layout_tiles_panel() {
    let l = PanelLayout::new(panel_rect(), 40, 2);
    assert_eq!(l.top_separator, Rectangle::new(0, 0, 600, 2));
    assert_eq!(l.content, Rectangle::new(0, 2, 560, 256));
    assert_eq!(l.scroll_bar, Rectangle::new(560, 2, 600, 256));
    assert_eq!(l.bottom_separator, Rectangle::new(0, 256, 600, 258));
    assert_eq!(l.picker, Rectangle::new(0, 258, 558, 298));
    assert_eq!(l.vertical_separator, Rectangle::new(558, 258, 560, 298));
    assert_eq!(l.open_button, Rectangle::new(560, 258, 600, 298));
    assert_eq!(l.bottom_border, Rectangle::new(0, 298, 600, 300));
}

#[test]
fn new_panel_shows_first_page() {
    let panel = DefinitionPanel::new(panel_rect(), "amor", "la", None, "<p>amour</p>".to_string(), 40, 2, pages_every_ten_up_to(20));
    assert_eq!(panel.current_page(), 0);
    assert_eq!(panel.page_locations(), &[0, 10, 20]);
    assert_eq!(panel.scroll_bar().total_pages, 3);
    assert_eq!(panel.scroll_bar().current_page, 0);
    assert_eq!(*panel.scroll_bar().rect(), Rectangle::new(560, 2, 600, 256));
    assert_eq!(panel.query(), "amor");
    assert_eq!(panel.language(), "la");
    assert_eq!(panel.content(), "<p>amour</p>");
    assert_eq!(panel.target(), None);
    assert_eq!(panel.picker_label(), ALL_DICTIONARIES);
    assert_eq!(panel.picker_label(), "All Dictionaries");
    assert_eq!(*panel.rect(), panel_rect());
    assert_eq!(*panel.layout(), PanelLayout::new(panel_rect(), 40, 2));
}

#[test]
fn picker_names_target() {
    let panel = DefinitionPanel::new(panel_rect(), "amor", "la", Some("Gaffiot"), "<p>amour</p>".to_string(), 40, 2, |_| None);
    assert_eq!(panel.target(), Some("Gaffiot"));
    assert_eq!(panel.picker_label(), "Gaffiot");
}

#[test]
fn go_to_page_turns_once() {
    let mut panel = DefinitionPanel::new(panel_rect(), "amor", "la", None, "<p>amour</p>".to_string(), 40, 2, pages_every_ten_up_to(30));
    assert_eq!(panel.go_to_page(4), None);
    assert_eq!(panel.go_to_page(0), None);
    assert_eq!(panel.go_to_page(2), Some(PageTurn { location: 20, scroll_bar_repaint: true }));
    assert_eq!(panel.current_page(), 2);
    assert_eq!(panel.scroll_bar().current_page, 2);
    assert_eq!(panel.go_to_page(2), None);
    assert_eq!(panel.current_page(), 2);
}

#[test]
fn events_inside_panel_are_absorbed() {
    let mut panel = DefinitionPanel::new(panel_rect(), "amor", "la", None, "<p>amour</p>".to_string(), 40, 2, pages_every_ten_up_to(30));
    let inside = Point::new(300, 150);
    let outside = Point::new(300, 400);
    for evt in [PanelEvent::Finger(inside), PanelEvent::Tap(inside), PanelEvent::Swipe(inside), PanelEvent::HoldFingerShort(inside)] {
        let r = panel.handle_event(evt);
        assert!(r.handled);
        assert_eq!(r.turn, None);
    }
    for evt in [PanelEvent::Finger(outside), PanelEvent::Tap(outside), PanelEvent::Swipe(outside), PanelEvent::HoldFingerShort(outside), PanelEvent::Other] {
        let r = panel.handle_event(evt);
        assert!(!r.handled);
    }
    assert_eq!(panel.current_page(), 0);
}

#[test]
fn scroll_event_turns_page() {
    let mut panel = DefinitionPanel::new(panel_rect(), "amor", "la", None, "<p>amour</p>".to_string(), 40, 2, pages_every_ten_up_to(30));
    let r = panel.handle_event(PanelEvent::Scroll(-1));
    assert!(!r.handled);
    let r = panel.handle_event(PanelEvent::Scroll(3));
    assert!(r.handled);
    assert_eq!(r.turn, Some(PageTurn { location: 30, scroll_bar_repaint: true }));
    let r = panel.handle_event(PanelEvent::Scroll(9));
    assert!(r.handled);
    assert_eq!(r.turn, None);
    assert_eq!(panel.current_page(), 3);
}

#[test]
fn scroll_bar_request_is_shown() {
    let mut panel = DefinitionPanel::new(panel_rect(), "amor", "la", None, "<p>amour</p>".to_string(), 40, 2, pages_every_ten_up_to(30));
    // track from y = 2 to y = 256, 4 pages, 254 / 4 = 63 high thumb, 191 of travel
    let r = panel.scroll_bar_finger(FingerStatus::Down, Point::new(580, 250), 10);
    assert_eq!(r.scroll_to, Some(3));
    assert_eq!(panel.current_page(), 0);
    let turn = panel.handle_event(PanelEvent::Scroll(3)).turn;
    assert_eq!(turn, Some(PageTurn { location: 30, scroll_bar_repaint: false }));
    assert_eq!(panel.current_page(), 3);
    assert_eq!(panel.scroll_bar().current_page, 3);
    let r = panel.scroll_bar_finger(FingerStatus::Up, Point::new(580, 250), 10);
    assert!(r.handled);
    assert!(!panel.scroll_bar().is_active());
}

#[test]
fn refresh_returns_to_first_page() {
    let mut panel = DefinitionPanel::new(panel_rect(), "amor", "la", None, "<p>amour</p>".to_string(), 40, 2, |_| None);
    assert_eq!(panel.scroll_bar().total_pages, 1);
    assert!(panel.refresh("<p>amor, amoris</p>".to_string(), pages_every_ten_up_to(20)));
    assert_eq!(panel.page_locations(), &[0, 10, 20]);
    assert_eq!(panel.current_page(), 0);
    assert_eq!(panel.scroll_bar().total_pages, 3);
    panel.go_to_page(1);
    assert!(panel.refresh("<p>amor, amoris</p>".to_string(), pages_every_ten_up_to(20)));
    assert_eq!(panel.current_page(), 0);
    assert!(!panel.refresh("<p>amor, amoris</p>".to_string(), pages_every_ten_up_to(20)));
    assert_eq!(panel.content(), "<p>amor, amoris</p>");
}

#[test]
fn refreshed_panel_is_paged_as_new_one() {
    let mut refreshed = DefinitionPanel::new(panel_rect(), "amor", "la", None, LOADING_HTML.to_string(), 40, 2, |_| None);
    refreshed.go_to_page(0);
    let content = panel_content(LoadState::Ready, || "<p>amour</p>".to_string());
    refreshed.refresh(content.clone(), pages_every_ten_up_to(40));
    let opened = DefinitionPanel::new(panel_rect(), "amor", "la", None, content, 40, 2, pages_every_ten_up_to(40));
    assert_eq!(refreshed.page_locations(), opened.page_locations());
    assert_eq!(refreshed.current_page(), opened.current_page());
    assert_eq!(refreshed.content(), opened.content());
    assert_eq!(refreshed.scroll_bar().total_pages, opened.scroll_bar().total_pages);
    assert_eq!(refreshed.scroll_bar().current_page, opened.scroll_bar().current_page);
}

#[test]
fn page_chain_is_unique() {
    let a = collect_page_locations(pages_every_ten_up_to(70));
    let b = collect_page_locations(pages_every_ten_up_to(70));
    assert_eq!(a, b);
}
