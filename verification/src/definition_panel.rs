//! The inline definition panel: a content area paged by a scroll bar, with a
//! toolbar below it to pick a dictionary or open the full dictionary.
use vstd::prelude::*;
use crate::geom::{fits_i32, rect_of, Point, Rectangle};
use crate::scroll_bar::{FingerStatus, ScrollBar, ScrollReaction};

verus! {

/// How many page boundaries past the first page are looked for at most.
pub const MAX_EXTRA_PAGES: usize = 50;

/// `locs` is a chain of page locations found by asking `resolve_next` for the
/// page after each one: it starts at location `0`, holds at most
/// `MAX_EXTRA_PAGES + 1` locations, each one after the first is what
/// `resolve_next` answered for the one before it, and, unless the limit was
/// reached, `resolve_next` answered that there is no page after the last one.
pub open spec fn is_page_chain<F: Fn(usize) -> Option<usize>>(resolve_next: F, locs: Seq<usize>) -> bool {
    &&& 1 <= locs.len() <= MAX_EXTRA_PAGES + 1
    &&& locs[0] == 0
    &&& forall|i: int|
        0 <= i < locs.len() - 1 ==> call_ensures(resolve_next, (locs[i],), Some(#[trigger] locs[i + 1]))
    &&& locs.len() < MAX_EXTRA_PAGES + 1 ==> call_ensures(resolve_next, (locs.last(),), None)
}

/// Collects the locations at which the pages of a document start, by asking
/// `resolve_next` for the location of the page after a given one, from location
/// `0` on, until it answers `None` or `MAX_EXTRA_PAGES` pages past the first
/// were found.
pub fn collect_page_locations<F: Fn(usize) -> Option<usize>>(resolve_next: F) -> (locations: Vec<
    usize,
>)
    requires
        forall|loc: usize| call_requires(resolve_next, (loc,)),
    ensures
        is_page_chain(resolve_next, locations@),
{
    let mut locations: Vec<usize> = vec![0usize];
    let mut loc: usize = 0;
    let mut i: usize = 0;
    while i < MAX_EXTRA_PAGES
        invariant
            forall|l: usize| call_requires(resolve_next, (l,)),
            i <= MAX_EXTRA_PAGES,
            locations@.len() == i + 1,
            locations@[0] == 0,
            loc == locations@.last(),
            forall|k: int|
                0 <= k < locations@.len() - 1 ==> call_ensures(
                    resolve_next,
                    (locations@[k],),
                    Some(#[trigger] locations@[k + 1]),
                ),
        decreases MAX_EXTRA_PAGES - i,
    {
        match resolve_next(loc) {
            Some(next_loc) => {
                locations.push(next_loc);
                loc = next_loc;
            },
            None => {
                return locations;
            },
        }
        i = i + 1;
    }
    locations
}

/// Where the parts of a definition panel lie.
#[derive(Clone, Copy, Debug, PartialEq, Eq, Structural)]
pub struct PanelLayout {
    /// Line along the top edge.
    pub top_separator: Rectangle,
    /// The rendered definition.
    pub content: Rectangle,
    /// The scroll bar, right of the content.
    pub scroll_bar: Rectangle,
    /// Line below the content.
    pub bottom_separator: Rectangle,
    /// The dictionary picker, left part of the toolbar.
    pub picker: Rectangle,
    /// Line between the picker and the open button.
    pub vertical_separator: Rectangle,
    /// The button that opens the full dictionary, right end of the toolbar.
    pub open_button: Rectangle,
    /// Line along the bottom edge.
    pub bottom_border: Rectangle,
}

/// The top of the content area.
pub open spec fn content_top(rect: Rectangle, thickness: int) -> int {
    rect.min.y + thickness
}

/// The bottom of the content area: room is left below it for a separator,
/// the toolbar (`small_height` tall) and the bottom border.
pub open spec fn content_bottom(rect: Rectangle, small_height: int, thickness: int) -> int {
    rect.max.y - small_height - 2 * thickness
}

/// The left edge of the separator between the picker and the open button.
pub open spec fn separator_x(rect: Rectangle, small_height: int, thickness: int) -> int {
    rect.max.x - small_height - thickness
}

/// The layout of a panel over `rect`, for toolbar and scroll bar size
/// `small_height` and line thickness `thickness`.
pub open spec fn spec_layout(rect: Rectangle, small_height: int, thickness: int) -> PanelLayout {
    let top = content_top(rect, thickness);
    let bottom = content_bottom(rect, small_height, thickness);
    let toolbar_top = bottom + thickness;
    let toolbar_bottom = rect.max.y - thickness;
    let vsep_x = separator_x(rect, small_height, thickness);
    let (x0, y0, x1, y1) = (rect.min.x as int, rect.min.y as int, rect.max.x as int, rect.max.y as int);
    PanelLayout {
        top_separator: rect_of(x0, y0, x1, top),
        content: rect_of(x0, top, x1 - small_height, bottom),
        scroll_bar: rect_of(x1 - small_height, top, x1, bottom),
        bottom_separator: rect_of(x0, bottom, x1, bottom + thickness),
        picker: rect_of(x0, toolbar_top, vsep_x, toolbar_bottom),
        vertical_separator: rect_of(vsep_x, toolbar_top, vsep_x + thickness, toolbar_bottom),
        open_button: rect_of(vsep_x + thickness, toolbar_top, x1, toolbar_bottom),
        bottom_border: rect_of(x0, y1 - thickness, x1, y1),
    }
}

/// The layout of a panel over `rect` can be computed in `i32` arithmetic.
pub open spec fn layout_fits(rect: Rectangle, small_height: int, thickness: int) -> bool {
    &&& fits_i32(content_top(rect, thickness))
    &&& fits_i32(rect.max.y - small_height)
    &&& fits_i32(2 * thickness)
    &&& fits_i32(content_bottom(rect, small_height, thickness))
    &&& fits_i32(content_bottom(rect, small_height, thickness) + thickness)
    &&& fits_i32(rect.max.y - thickness)
    &&& fits_i32(rect.max.x - small_height)
    &&& fits_i32(separator_x(rect, small_height, thickness))
    &&& fits_i32(separator_x(rect, small_height, thickness) + thickness)
}

impl PanelLayout {
    /// Lays out a panel over `rect`; `small_height` is the height of the
    /// toolbar and the width of the scroll bar, `thickness` that of the lines.
    pub fn new(rect: Rectangle, small_height: i32, thickness: i32) -> (layout: PanelLayout)
        requires
            layout_fits(rect, small_height as int, thickness as int),
        ensures
            layout == spec_layout(rect, small_height as int, thickness as int),
            layout.content.max.y == rect.max.y - small_height - 2 * thickness,
            layout.picker.max.y - layout.picker.min.y == small_height,
            layout.picker.max.y == rect.max.y - thickness,
    {
        let content_top = rect.min.y + thickness;
        let content_bottom = rect.max.y - small_height - 2 * thickness;
        let scrollbar_width = small_height;
        let toolbar_top = content_bottom + thickness;
        let toolbar_bottom = rect.max.y - thickness;
        let vsep_x = rect.max.x - small_height - thickness;
        PanelLayout {
            top_separator: Rectangle::new(rect.min.x, rect.min.y, rect.max.x, content_top),
            content: Rectangle::new(rect.min.x, content_top, rect.max.x - scrollbar_width, content_bottom),
            scroll_bar: Rectangle::new(rect.max.x - scrollbar_width, content_top, rect.max.x, content_bottom),
            bottom_separator: Rectangle::new(rect.min.x, content_bottom, rect.max.x, content_bottom + thickness),
            picker: Rectangle::new(rect.min.x, toolbar_top, vsep_x, toolbar_bottom),
            vertical_separator: Rectangle::new(vsep_x, toolbar_top, vsep_x + thickness, toolbar_bottom),
            open_button: Rectangle::new(vsep_x + thickness, toolbar_top, rect.max.x, toolbar_bottom),
            bottom_border: Rectangle::new(rect.min.x, rect.max.y - thickness, rect.max.x, rect.max.y),
        }
    }
}

/// The sizes of the parts of a panel, for any rectangle it lies over: the
/// top separator, the bottom separator, the vertical separator and the bottom
/// border are `thickness` thick; the toolbar is `small_height` tall and sits
/// right above the bottom border; the content row starts below the top
/// separator and ends `small_height + 2 * thickness` above the panel's bottom
/// edge; the scroll bar and the open button are `small_height` wide against
/// the panel's right edge, and everything else spans from its left edge.
pub proof fn lemma_layout_sizes(rect: Rectangle, small_height: int, thickness: int)
    requires
        layout_fits(rect, small_height, thickness),
    ensures
        ({
            let l = spec_layout(rect, small_height, thickness);
            &&& l.top_separator.min.y == rect.min.y
            &&& l.top_separator.max.y == rect.min.y + thickness
            &&& l.content.min.y == rect.min.y + thickness
            &&& l.content.max.y == rect.max.y - small_height - 2 * thickness
            &&& l.scroll_bar.min.y == rect.min.y + thickness
            &&& l.scroll_bar.max.y == rect.max.y - small_height - 2 * thickness
            &&& l.bottom_separator.min.y == rect.max.y - small_height - 2 * thickness
            &&& l.bottom_separator.max.y - l.bottom_separator.min.y == thickness
            &&& l.picker.min.y == rect.max.y - small_height - thickness
            &&& l.picker.max.y - l.picker.min.y == small_height
            &&& l.picker.max.y == rect.max.y - thickness
            &&& l.vertical_separator.min.y == l.picker.min.y
            &&& l.vertical_separator.max.y == l.picker.max.y
            &&& l.open_button.min.y == l.picker.min.y
            &&& l.open_button.max.y == l.picker.max.y
            &&& l.bottom_border.min.y == rect.max.y - thickness
            &&& l.bottom_border.max.y == rect.max.y
            &&& l.top_separator.min.x == rect.min.x && l.top_separator.max.x == rect.max.x
            &&& l.bottom_separator.min.x == rect.min.x && l.bottom_separator.max.x == rect.max.x
            &&& l.bottom_border.min.x == rect.min.x && l.bottom_border.max.x == rect.max.x
            &&& l.content.min.x == rect.min.x
            &&& l.content.max.x == rect.max.x - small_height
            &&& l.scroll_bar.min.x == rect.max.x - small_height
            &&& l.scroll_bar.max.x == rect.max.x
            &&& l.picker.min.x == rect.min.x
            &&& l.picker.max.x == rect.max.x - small_height - thickness
            &&& l.vertical_separator.max.x - l.vertical_separator.min.x == thickness
            &&& l.open_button.min.x == rect.max.x - small_height
            &&& l.open_button.max.x == rect.max.x
        }),
{
}

/// The parts of a panel tile it: from top to bottom, the top separator, the
/// content row, the bottom separator, the toolbar and the bottom border meet
/// edge to edge and span the panel's height; the content meets the scroll
/// bar, and the picker, the vertical separator and the open button meet
/// edge to edge across the panel's width.
pub proof fn lemma_layout_tiles(rect: Rectangle, small_height: int, thickness: int)
    requires
        layout_fits(rect, small_height, thickness),
    ensures
        ({
            let l = spec_layout(rect, small_height, thickness);
            &&& l.top_separator.min.y == rect.min.y
            &&& l.top_separator.max.y == l.content.min.y
            &&& l.content.min.y == l.scroll_bar.min.y
            &&& l.content.max.y == l.scroll_bar.max.y
            &&& l.content.max.y == l.bottom_separator.min.y
            &&& l.bottom_separator.max.y == l.picker.min.y
            &&& l.picker.max.y == l.bottom_border.min.y
            &&& l.bottom_border.max.y == rect.max.y
            &&& l.content.min.x == rect.min.x
            &&& l.content.max.x == l.scroll_bar.min.x
            &&& l.scroll_bar.max.x == rect.max.x
            &&& l.picker.min.x == rect.min.x
            &&& l.picker.max.x == l.vertical_separator.min.x
            &&& l.vertical_separator.max.x == l.open_button.min.x
            &&& l.open_button.max.x == rect.max.x
            &&& l.vertical_separator.min.y == l.picker.min.y
            &&& l.open_button.min.y == l.picker.min.y
            &&& l.vertical_separator.max.y == l.picker.max.y
            &&& l.open_button.max.y == l.picker.max.y
        }),
{
}

/// The picker's label when no dictionary is picked.
pub const ALL_DICTIONARIES: &'static str = "All Dictionaries";

/// A page to show, once the panel turned to it.
#[derive(Clone, Copy, Debug, PartialEq, Eq, Structural)]
pub struct PageTurn {
    /// The document location at which the page starts, to be rendered in the content area.
    pub location: usize,
    /// Whether the scroll bar must be redrawn.
    pub scroll_bar_repaint: bool,
}

/// The events a definition panel reacts to.
#[derive(Clone, Copy, Debug, PartialEq, Eq, Structural)]
pub enum PanelEvent {
    /// The scroll bar asks for a page.
    Scroll(i32),
    /// A finger touches, moves on or leaves the screen at a point.
    Finger(Point),
    /// A tap centred on a point.
    Tap(Point),
    /// A swipe that starts at a point.
    Swipe(Point),
    /// A short hold centred on a point.
    HoldFingerShort(Point),
    /// Any other event.
    Other,
}

/// What an event on the panel leads to.
#[derive(Clone, Copy, Debug, PartialEq, Eq, Structural)]
pub struct PanelReaction {
    /// Whether the event is consumed by the panel.
    pub handled: bool,
    /// The page turned to, if any.
    pub turn: Option<PageTurn>,
}

/// The point at which a touch or gesture event happens, if it is one.
pub open spec fn touch_point(evt: PanelEvent) -> Option<Point> {
    match evt {
        PanelEvent::Finger(p) => Some(p),
        PanelEvent::Tap(p) => Some(p),
        PanelEvent::Swipe(p) => Some(p),
        PanelEvent::HoldFingerShort(p) => Some(p),
        _ => None,
    }
}

/// The definition panel: which page of the definition is shown and where
/// each page starts, with the scroll bar that shows and picks the page.
pub struct DefinitionPanel {
    rect: Rectangle,
    layout: PanelLayout,
    pages: Pages,
    target: Option<String>,
    query: String,
    language: String,
    content: String,
}

/// The paging state of a panel, changed as one.
struct Pages {
    locations: Vec<usize>,
    current: usize,
    scroll_bar: ScrollBar,
}

impl DefinitionPanel {
    pub closed spec fn spec_rect(self) -> Rectangle {
        self.rect
    }

    pub closed spec fn spec_layout(self) -> PanelLayout {
        self.layout
    }

    /// The document locations at which the pages start.
    pub closed spec fn spec_page_locations(self) -> Seq<usize> {
        self.pages.locations@
    }

    /// The page shown.
    pub closed spec fn spec_current_page(self) -> usize {
        self.pages.current
    }

    /// The dictionary picked, if any.
    pub closed spec fn spec_target(self) -> Option<Seq<char>> {
        match self.target {
            Some(t) => Some(t@),
            None => None,
        }
    }

    /// The word looked up.
    pub closed spec fn spec_query(self) -> Seq<char> {
        self.query@
    }

    /// The language of the book the word comes from.
    pub closed spec fn spec_language(self) -> Seq<char> {
        self.language@
    }

    pub closed spec fn spec_scroll_bar(self) -> ScrollBar {
        self.pages.scroll_bar
    }

    /// The HTML shown (see `crate::collatinus::panel_content`).
    pub closed spec fn spec_content(self) -> Seq<char> {
        self.content@
    }

    /// The number of pages.
    pub open spec fn page_total(self) -> int {
        self.spec_page_locations().len() as int
    }

    /// The panel's invariant: the first page starts at location `0`, the page
    /// shown is one of the pages, and the scroll bar lies where the layout puts
    /// it, counts as many pages as the panel and shows one of them.
    pub open spec fn wf(self) -> bool {
        &&& 1 <= self.page_total() <= MAX_EXTRA_PAGES + 1
        &&& self.spec_page_locations()[0] == 0
        &&& self.spec_current_page() < self.page_total()
        &&& self.spec_scroll_bar().total_pages == self.page_total()
        &&& self.spec_scroll_bar().current_page < self.page_total()
        &&& self.spec_scroll_bar().rect == self.spec_layout().scroll_bar
    }

    /// Every panel keeps `wf`.
    #[verifier::type_invariant]
    spec fn inv(self) -> bool {
        self.wf()
    }

    /// A panel over `rect` defining `query` (a word of a book in `language`),
    /// from the dictionary `target` or from all of them, showing the HTML
    /// `content`, whose pages start at the locations found by `resolve_next`
    /// (see `collect_page_locations`); it shows its first page.
    pub fn new<F: Fn(usize) -> Option<usize>>(
        rect: Rectangle,
        query: &str,
        language: &str,
        target: Option<&str>,
        content: String,
        small_height: i32,
        thickness: i32,
        resolve_next: F,
    ) -> (panel: DefinitionPanel)
        requires
            layout_fits(rect, small_height as int, thickness as int),
            forall|loc: usize| call_requires(resolve_next, (loc,)),
        ensures
            panel.wf(),
            panel.spec_rect() == rect,
            panel.spec_layout() == spec_layout(rect, small_height as int, thickness as int),
            is_page_chain(resolve_next, panel.spec_page_locations()),
            panel.spec_current_page() == 0,
            panel.spec_query() == query@,
            panel.spec_language() == language@,
            panel.spec_content() == content@,
            panel.spec_target() == (match target {
                Some(t) => Some(t@),
                None => None::<Seq<char>>,
            }),
            panel.spec_scroll_bar().current_page == 0,
            !panel.spec_scroll_bar().active,
            panel.spec_scroll_bar().last_y == -1,
    {
        let layout = PanelLayout::new(rect, small_height, thickness);
        let page_locations = collect_page_locations(resolve_next);
        let total_pages = page_locations.len();
        let scroll_bar = ScrollBar::new(layout.scroll_bar, 0, total_pages);
        let target = match target {
            Some(t) => Some(t.to_owned()),
            None => None,
        };
        DefinitionPanel {
            rect,
            layout,
            pages: Pages { locations: page_locations, current: 0, scroll_bar },
            target,
            query: query.to_owned(),
            language: language.to_owned(),
            content,
        }
    }

    /// The panel's rectangle.
    pub fn rect(&self) -> (r: &Rectangle)
        ensures
            *r == self.spec_rect(),
    {
        &self.rect
    }

    /// Where the parts of the panel lie.
    pub fn layout(&self) -> (l: &PanelLayout)
        ensures
            *l == self.spec_layout(),
    {
        &self.layout
    }

    /// The dictionary picked, if any.
    pub fn target(&self) -> (t: Option<&str>)
        ensures
            match t {
                Some(s) => self.spec_target() == Some(s@),
                None => self.spec_target().is_none(),
            },
    {
        match &self.target {
            Some(s) => Some(s.as_str()),
            None => None,
        }
    }

    /// The word looked up.
    pub fn query(&self) -> (q: &str)
        ensures
            q@ == self.spec_query(),
    {
        self.query.as_str()
    }

    /// The language of the book the word comes from.
    pub fn language(&self) -> (l: &str)
        ensures
            l@ == self.spec_language(),
    {
        self.language.as_str()
    }

    /// The page shown.
    pub fn current_page(&self) -> (p: usize)
        ensures
            p == self.spec_current_page(),
    {
        self.pages.current
    }

    /// The HTML shown.
    pub fn content(&self) -> (c: &str)
        ensures
            c@ == self.spec_content(),
    {
        self.content.as_str()
    }

    /// The document locations at which the pages start.
    pub fn page_locations(&self) -> (locs: &[usize])
        ensures
            locs@ == self.spec_page_locations(),
    {
        self.pages.locations.as_slice()
    }

    /// The scroll bar.
    pub fn scroll_bar(&self) -> (s: &ScrollBar)
        ensures
            *s == self.spec_scroll_bar(),
    {
        &self.pages.scroll_bar
    }

    /// The label of the dictionary picker: the picked dictionary, or
    /// `ALL_DICTIONARIES` when none is.
    pub fn picker_label(&self) -> (label: String)
        ensures
            label@ == match self.spec_target() {
                Some(t) => t,
                None => ALL_DICTIONARIES@,
            },
    {
        match &self.target {
            Some(t) => t.clone(),
            None => ALL_DICTIONARIES.to_owned(),
        }
    }

    /// Whether turning to `page` changes anything: it must be one of the
    /// pages and not the one shown.
    pub open spec fn turns_to(self, page: int) -> bool {
        0 <= page < self.page_total() && page != self.spec_current_page()
    }

    /// The outcome of turning to `page`: `after` is the panel once turned and
    /// `turn` what is returned.
    pub open spec fn turn_post(self, after: DefinitionPanel, page: int, turn: Option<PageTurn>) -> bool {
        &&& !self.turns_to(page) ==> turn.is_none() && after == self
        &&& self.turns_to(page) ==> {
            &&& turn == Some(
                PageTurn {
                    location: self.spec_page_locations()[page],
                    scroll_bar_repaint: self.spec_scroll_bar().repaint_needed(
                        page as usize,
                        self.page_total() as usize,
                    ),
                },
            )
            &&& after.spec_current_page() == page
            &&& after.spec_scroll_bar().current_page == page
            &&& after.spec_scroll_bar().total_pages == self.spec_scroll_bar().total_pages
            &&& after.spec_scroll_bar().rect == self.spec_scroll_bar().rect
            &&& after.spec_scroll_bar().active == self.spec_scroll_bar().active
            &&& after.spec_scroll_bar().last_y == self.spec_scroll_bar().last_y
            &&& after.spec_page_locations() == self.spec_page_locations()
            &&& after.spec_rect() == self.spec_rect()
            &&& after.spec_layout() == self.spec_layout()
            &&& after.spec_target() == self.spec_target()
            &&& after.spec_query() == self.spec_query()
            &&& after.spec_language() == self.spec_language()
            &&& after.spec_content() == self.spec_content()
        }
    }

    /// Turns to `page`. When `page` is not one of the pages or is the page
    /// shown, nothing changes and `None` is returned; otherwise the panel and
    /// its scroll bar show `page`, and the location where the page starts is
    /// returned with whether the scroll bar must be redrawn.
    pub fn go_to_page(&mut self, page: usize) -> (turn: Option<PageTurn>)
        ensures
            final(self).wf(),
            old(self).turn_post(*final(self), page as int, turn),
            turn matches Some(t) ==> t.location == old(self).spec_page_locations()[page as int]
                && final(self).spec_current_page() == page,
    {
        proof {
            use_type_invariant(&*self);
        }
        if page >= self.pages.locations.len() || page == self.pages.current {
            return None;
        }
        self.pages.current = page;
        let location = self.pages.locations[page];
        let total = self.pages.locations.len();
        let mut scroll_bar = self.pages.scroll_bar;
        let scroll_bar_repaint = scroll_bar.update(page, total);
        self.pages.scroll_bar = scroll_bar;
        Some(PageTurn { location, scroll_bar_repaint })
    }

    /// Shows new `content`: the pages now start at the locations found by
    /// `resolve_next` (see `collect_page_locations`) and the panel and its
    /// scroll bar show the first page. Returns whether the scroll bar must be
    /// redrawn.
    pub fn refresh<F: Fn(usize) -> Option<usize>>(
        &mut self,
        content: String,
        resolve_next: F,
    ) -> (scroll_bar_repaint: bool)
        requires
            forall|loc: usize| call_requires(resolve_next, (loc,)),
        ensures
            final(self).wf(),
            is_page_chain(resolve_next, final(self).spec_page_locations()),
            final(self).spec_current_page() == 0,
            final(self).spec_content() == content@,
            final(self).spec_scroll_bar().current_page == 0,
            final(self).spec_scroll_bar().total_pages == final(self).page_total(),
            final(self).spec_scroll_bar().rect == old(self).spec_scroll_bar().rect,
            final(self).spec_scroll_bar().active == old(self).spec_scroll_bar().active,
            final(self).spec_scroll_bar().last_y == old(self).spec_scroll_bar().last_y,
            scroll_bar_repaint == old(self).spec_scroll_bar().repaint_needed(
                0,
                final(self).page_total() as usize,
            ),
            final(self).spec_rect() == old(self).spec_rect(),
            final(self).spec_layout() == old(self).spec_layout(),
            final(self).spec_target() == old(self).spec_target(),
            final(self).spec_query() == old(self).spec_query(),
            final(self).spec_language() == old(self).spec_language(),
    {
        proof {
            use_type_invariant(&*self);
        }
        let locations = collect_page_locations(resolve_next);
        let total = locations.len();
        let mut scroll_bar = self.pages.scroll_bar;
        let scroll_bar_repaint = scroll_bar.update(0, total);
        self.pages = Pages { locations, current: 0, scroll_bar };
        self.content = content;
        scroll_bar_repaint
    }

    /// Reacts to an event: a request for a page that is not negative turns to
    /// that page (see `go_to_page`) and is consumed; a touch or gesture inside
    /// the panel is consumed and changes nothing, so that what lies under the
    /// panel does not get it; any other event is left alone.
    pub fn handle_event(&mut self, evt: PanelEvent) -> (r: PanelReaction)
        ensures
            final(self).wf(),
            match evt {
                PanelEvent::Scroll(page) => if page >= 0 {
                    r.handled && old(self).turn_post(*final(self), page as int, r.turn)
                } else {
                    !r.handled && r.turn.is_none() && *final(self) == *old(self)
                },
                _ => {
                    &&& r.turn.is_none()
                    &&& *final(self) == *old(self)
                    &&& r.handled == (touch_point(evt) matches Some(p)
                        && old(self).spec_rect().contains_point(p))
                },
            },
            touch_point(evt) matches Some(p) ==> (r.handled <==> (old(self).spec_rect().min.x <= p.x
                < old(self).spec_rect().max.x && old(self).spec_rect().min.y <= p.y
                < old(self).spec_rect().max.y)),
    {
        proof {
            use_type_invariant(&*self);
        }
        match evt {
            PanelEvent::Scroll(page) => {
                if page >= 0 {
                    let turn = self.go_to_page(page as usize);
                    PanelReaction { handled: true, turn }
                } else {
                    PanelReaction { handled: false, turn: None }
                }
            },
            PanelEvent::Finger(p) => PanelReaction { handled: self.rect.includes(p), turn: None },
            PanelEvent::Tap(p) => PanelReaction { handled: self.rect.includes(p), turn: None },
            PanelEvent::Swipe(p) => PanelReaction { handled: self.rect.includes(p), turn: None },
            PanelEvent::HoldFingerShort(p) => PanelReaction {
                handled: self.rect.includes(p),
                turn: None,
            },
            PanelEvent::Other => PanelReaction { handled: false, turn: None },
        }
    }

    /// Passes a finger event to the scroll bar (see `ScrollBar::handle_finger`);
    /// the page the scroll bar then asks for is to be handed back as a
    /// `PanelEvent::Scroll`.
    pub fn scroll_bar_finger(&mut self, status: FingerStatus, position: Point, min_thumb: i32) -> (r:
        ScrollReaction)
        requires
            old(self).spec_scroll_bar().presses(status, position) || old(
                self,
            ).spec_scroll_bar().drags(status, position) ==> old(self).spec_scroll_bar().page_fits(
                position.y as int,
                min_thumb as int,
            ),
        ensures
            final(self).wf(),
            old(self).spec_scroll_bar().finger_post(
                final(self).spec_scroll_bar(),
                status,
                position,
                min_thumb as int,
                r,
            ),
            r.scroll_to matches Some(p) ==> p < final(self).page_total(),
            final(self).spec_current_page() == old(self).spec_current_page(),
            final(self).spec_page_locations() == old(self).spec_page_locations(),
            final(self).spec_rect() == old(self).spec_rect(),
            final(self).spec_layout() == old(self).spec_layout(),
            final(self).spec_target() == old(self).spec_target(),
            final(self).spec_query() == old(self).spec_query(),
            final(self).spec_language() == old(self).spec_language(),
            final(self).spec_content() == old(self).spec_content(),
    {
        proof {
            use_type_invariant(&*self);
        }
        let mut scroll_bar = self.pages.scroll_bar;
        let r = scroll_bar.handle_finger(status, position, min_thumb);
        self.pages.scroll_bar = scroll_bar;
        r
    }
}

/// Turning to a page twice turns only once: once the panel turned to `page`,
/// turning to `page` again changes nothing.
pub proof fn lemma_go_to_page_settles(
    before: DefinitionPanel,
    after: DefinitionPanel,
    page: int,
    turn: Option<PageTurn>,
)
    requires
        before.wf(),
        before.turn_post(after, page, turn),
        turn.is_some(),
    ensures
        after.spec_current_page() == page,
        !after.turns_to(page),
{
}

/// A page the scroll bar asks for during a touch is shown by the panel once
/// the request is handed back to it, and the scroll bar, which already shows
/// that page, needs no second redraw.
pub proof fn lemma_scroll_request_is_shown(
    before: DefinitionPanel,
    touched: DefinitionPanel,
    after: DefinitionPanel,
    status: FingerStatus,
    position: Point,
    min_thumb: int,
    r: ScrollReaction,
    page: usize,
    turn: Option<PageTurn>,
)
    requires
        before.wf(),
        touched.wf(),
        before.spec_scroll_bar().finger_post(touched.spec_scroll_bar(), status, position, min_thumb, r),
        r.scroll_to == Some(page),
        touched.turn_post(after, page as int, turn),
    ensures
        after.spec_current_page() == page,
        after.spec_scroll_bar().current_page == page,
        turn matches Some(t) ==> !t.scroll_bar_repaint,
{
}

/// After a refresh the panel shows its first page, which starts at location `0`.
pub proof fn lemma_refresh_shows_first_page(panel: DefinitionPanel)
    requires
        panel.wf(),
        panel.spec_current_page() == 0,
    ensures
        panel.spec_page_locations()[panel.spec_current_page() as int] == 0,
{
}

/// `resolve_next` answers each location with a single result.
pub open spec fn deterministic<F: Fn(usize) -> Option<usize>>(resolve_next: F) -> bool {
    forall|x: usize, y1: Option<usize>, y2: Option<usize>|
        call_ensures(resolve_next, (x,), y1) && call_ensures(resolve_next, (x,), y2) ==> y1 == y2
}

/// Two page chains of a deterministic resolver agree on their first `k + 1` locations.
proof fn lemma_page_chains_agree<F: Fn(usize) -> Option<usize>>(
    resolve_next: F,
    a: Seq<usize>,
    b: Seq<usize>,
    k: int,
)
    requires
        is_page_chain(resolve_next, a),
        is_page_chain(resolve_next, b),
        deterministic(resolve_next),
        0 <= k < a.len(),
        k < b.len(),
    ensures
        forall|i: int| 0 <= i <= k ==> a[i] == b[i],
    decreases k,
{
    if k > 0 {
        lemma_page_chains_agree(resolve_next, a, b, k - 1);
        assert(call_ensures(resolve_next, (a[k - 1],), Some(a[(k - 1) + 1])));
        assert(call_ensures(resolve_next, (b[k - 1],), Some(b[(k - 1) + 1])));
    }
}

/// A deterministic resolver has a single page chain: collecting the pages
/// twice gives the same locations.
pub proof fn lemma_page_chain_unique<F: Fn(usize) -> Option<usize>>(
    resolve_next: F,
    a: Seq<usize>,
    b: Seq<usize>,
)
    requires
        is_page_chain(resolve_next, a),
        is_page_chain(resolve_next, b),
        deterministic(resolve_next),
    ensures
        a == b,
{
    if a.len() < b.len() {
        let k = a.len() - 1;
        lemma_page_chains_agree(resolve_next, a, b, k);
        assert(call_ensures(resolve_next, (b[k],), Some(b[k + 1])));
        assert(call_ensures(resolve_next, (a.last(),), None::<usize>));
        assert(false);
    } else if b.len() < a.len() {
        let k = b.len() - 1;
        lemma_page_chains_agree(resolve_next, a, b, k);
        assert(call_ensures(resolve_next, (a[k],), Some(a[k + 1])));
        assert(call_ensures(resolve_next, (b.last(),), None::<usize>));
        assert(false);
    } else {
        lemma_page_chains_agree(resolve_next, a, b, a.len() - 1);
        assert(a =~= b);
    }
}

/// A panel refreshed with the content and the resolver that a newly opened
/// panel gets is paged as that new panel: same page locations, first page
/// shown, and a scroll bar on the first of as many pages.
pub proof fn lemma_refresh_matches_new<F: Fn(usize) -> Option<usize>>(
    refreshed: DefinitionPanel,
    opened: DefinitionPanel,
    resolve_next: F,
)
    requires
        refreshed.wf(),
        opened.wf(),
        deterministic(resolve_next),
        is_page_chain(resolve_next, refreshed.spec_page_locations()),
        is_page_chain(resolve_next, opened.spec_page_locations()),
        refreshed.spec_current_page() == 0,
        opened.spec_current_page() == 0,
        refreshed.spec_scroll_bar().current_page == 0,
        opened.spec_scroll_bar().current_page == 0,
    ensures
        refreshed.spec_page_locations() == opened.spec_page_locations(),
        refreshed.spec_current_page() == opened.spec_current_page(),
        refreshed.spec_scroll_bar().total_pages == opened.spec_scroll_bar().total_pages,
        refreshed.spec_scroll_bar().current_page == opened.spec_scroll_bar().current_page,
{
    lemma_page_chain_unique(
        resolve_next,
        refreshed.spec_page_locations(),
        opened.spec_page_locations(),
    );
}

/// Whatever page was shown before, a turn renders the start of the page
/// turned to: the location returned is where that page starts, and it is the
/// start of the page the panel now shows, which the scroll bar shows too.
/// A turn happens exactly when the page is one of the pages and not the one
/// shown.
pub proof fn lemma_turn_renders_page_start(
    before: DefinitionPanel,
    after: DefinitionPanel,
    page: int,
    turn: Option<PageTurn>,
)
    requires
        before.wf(),
        before.turn_post(after, page, turn),
    ensures
        turn.is_some() <==> (0 <= page < before.spec_page_locations().len()
            && page != before.spec_current_page()),
        turn matches Some(t) ==> {
            &&& t.location == before.spec_page_locations()[page]
            &&& after.spec_page_locations() == before.spec_page_locations()
            &&& after.spec_current_page() == page
            &&& t.location == after.spec_page_locations()[after.spec_current_page() as int]
            &&& after.spec_scroll_bar().current_page == page
        },
        turn.is_none() ==> after == before,
{
}

} // verus!
