//! A vertical scroll bar: a track with a thumb whose position shows the
//! current page, and which turns touches on the track into page requests.
use vstd::prelude::*;
use vstd::math::{max, min};
use vstd::arithmetic::div_mod::{lemma_div_is_ordered, lemma_div_by_multiple, lemma_fundamental_div_mod, lemma_multiply_divide_le, lemma_div_pos_is_pos, lemma_div_nonincreasing, lemma_fundamental_div_mod_converse_div, lemma_mod_pos_bound};
use vstd::arithmetic::mul::{lemma_mul_inequality, lemma_mul_nonnegative, lemma_mul_is_commutative};
use crate::geom::{fits_i32, rect_of, Point, Rectangle};

verus! {

/// Rust's `/` on signed integers: the quotient rounded toward zero (`b > 0`).
pub open spec fn div_trunc(a: int, b: int) -> int {
    if a >= 0 {
        a / b
    } else {
        -((-a) / b)
    }
}

/// `v` brought into `[lo, hi]`, as `Ord::clamp` does.
pub open spec fn clamp(v: int, lo: int, hi: int) -> int {
    if v < lo {
        lo
    } else if v > hi {
        hi
    } else {
        v
    }
}

/// The number of pages the track is divided into: at least one.
pub open spec fn page_count(total_pages: int) -> int {
    if total_pages == 0 {
        1
    } else {
        total_pages
    }
}

/// Height of the thumb: the track shared out among the pages, no less than
/// `min_thumb` and no more than the whole track.
pub open spec fn thumb_height(track: int, count: int, min_thumb: int) -> int {
    min(max(div_trunc(track, count), min_thumb), track)
}

/// The distance the thumb can travel along the track (at least one pixel).
pub open spec fn usable_height(track: int, count: int, min_thumb: int) -> int {
    max(track - thumb_height(track, count, min_thumb), 1)
}

/// Distance from the top of the track to the top of the thumb when `page` is shown.
pub open spec fn thumb_offset(track: int, count: int, min_thumb: int, page: int) -> int {
    if count > 1 {
        (usable_height(track, count, min_thumb) * page) / (count - 1)
    } else {
        0
    }
}

/// The page selected by a touch `y_rel` pixels below the top of the track.
pub open spec fn page_at(track: int, count: int, min_thumb: int, y_rel: int) -> int {
    let usable = usable_height(track, count, min_thumb);
    if count <= 1 {
        0
    } else {
        clamp((clamp(y_rel, 0, usable) * (count - 1)) / usable, 0, count - 1)
    }
}

/// `v` brought into `[lo, hi]`.
fn clamp_i32(v: i32, lo: i32, hi: i32) -> (r: i32)
    requires
        lo <= hi,
    ensures
        r == clamp(v as int, lo as int, hi as int),
{
    if v < lo {
        lo
    } else if v > hi {
        hi
    } else {
        v
    }
}

/// The phase of a finger contact.
#[derive(Clone, Copy, Debug, PartialEq, Eq, Structural)]
pub enum FingerStatus {
    Down,
    Motion,
    Up,
}

/// How the scroll bar asks to be redrawn: `Gui` waits for the display to
/// finish, `FastMono` is a quick monochrome update that does not wait.
#[derive(Clone, Copy, Debug, PartialEq, Eq, Structural)]
pub enum Repaint {
    Gui,
    FastMono,
}

/// What a finger event on the scroll bar leads to.
#[derive(Clone, Copy, Debug, PartialEq, Eq, Structural)]
pub struct ScrollReaction {
    /// Whether the event is consumed by the scroll bar.
    pub handled: bool,
    /// The redraw of the scroll bar that is asked for, if any.
    pub repaint: Option<Repaint>,
    /// The page that the scroll bar asks its owner to show, if any.
    pub scroll_to: Option<usize>,
}

/// A vertical scroll bar showing `current_page` of `total_pages`.
#[derive(Clone, Copy, Debug, PartialEq, Eq, Structural)]
pub struct ScrollBar {
    /// The track.
    pub rect: Rectangle,
    pub current_page: usize,
    pub total_pages: usize,
    /// Whether a finger is dragging on the scroll bar.
    pub active: bool,
    /// The height at which the finger was last seen (`-1` before any touch).
    pub last_y: i32,
}

/// Proof that the thumb is never taller than the track nor the track's
/// travel negative: `0 <= track - thumb_height`, and for a track of
/// non-negative height, `thumb_height >= 0` too.
pub proof fn lemma_thumb_height_bounds(track: int, count: int, min_thumb: int)
    requires
        count >= 1,
    ensures
        thumb_height(track, count, min_thumb) <= track,
        track >= 0 ==> 0 <= thumb_height(track, count, min_thumb),
        track < 0 ==> thumb_height(track, count, min_thumb) == track,
        usable_height(track, count, min_thumb) >= 1,
        track >= 0 ==> usable_height(track, count, min_thumb) <= max(track, 1),
        track < 0 ==> usable_height(track, count, min_thumb) == 1,
{
    if track >= 0 {
        assert(track / count >= 0) by {
            lemma_div_pos_is_pos(track, count);
        }
    } else {
        assert((-track) / count <= -track) by {
            lemma_div_nonincreasing(-track, count);
        }
    }
}

impl ScrollBar {
    /// Signed height of the track.
    pub open spec fn track(self) -> int {
        self.rect.spec_height()
    }

    /// Number of pages the track is divided into.
    pub open spec fn count(self) -> int {
        page_count(self.total_pages as int)
    }

    pub open spec fn spec_thumb_height(self, min_thumb: int) -> int {
        thumb_height(self.track(), self.count(), min_thumb)
    }

    pub open spec fn spec_usable(self, min_thumb: int) -> int {
        usable_height(self.track(), self.count(), min_thumb)
    }

    pub open spec fn spec_thumb_offset(self, min_thumb: int) -> int {
        thumb_offset(self.track(), self.count(), min_thumb, self.current_page as int)
    }

    /// The thumb: as wide as the track, `spec_thumb_height` tall, and
    /// `spec_thumb_offset` below the top of the track.
    pub open spec fn spec_thumb_rect(self, min_thumb: int) -> Rectangle {
        let r = self.rect;
        let top = r.min.y + self.spec_thumb_offset(min_thumb);
        rect_of(r.min.x as int, top, r.max.x as int, top + self.spec_thumb_height(min_thumb))
    }

    /// The page selected by a touch at height `y`.
    pub open spec fn spec_page_from_y(self, y: int, min_thumb: int) -> int {
        page_at(self.track(), self.count(), min_thumb, y - self.rect.min.y)
    }

    /// The thumb of this scroll bar can be computed in `i32` arithmetic.
    pub open spec fn thumb_fits(self, min_thumb: int) -> bool {
        let top = self.rect.min.y + self.spec_thumb_offset(min_thumb);
        &&& fits_i32(self.track())
        &&& self.total_pages <= i32::MAX
        &&& (self.count() > 1 ==> self.spec_usable(min_thumb) * self.current_page <= i32::MAX)
        &&& fits_i32(top)
        &&& fits_i32(top + self.spec_thumb_height(min_thumb))
    }

    /// The page under a touch at height `y` can be computed in `i32` arithmetic.
    pub open spec fn page_fits(self, y: int, min_thumb: int) -> bool {
        let y_rel = y - self.rect.min.y;
        &&& fits_i32(self.track())
        &&& self.total_pages <= i32::MAX
        &&& fits_i32(y_rel)
        &&& (self.count() > 1 ==> clamp(y_rel, 0, self.spec_usable(min_thumb)) * (self.count()
            - 1) <= i32::MAX)
    }

    /// Whether a redraw is owed when the bar is set to `current_page` of `total_pages`.
    pub open spec fn repaint_needed(self, current_page: usize, total_pages: usize) -> bool {
        self.current_page != current_page || self.total_pages != total_pages
    }

    /// A new, idle scroll bar over `rect`, showing `current_page` of `total_pages`.
    pub fn new(rect: Rectangle, current_page: usize, total_pages: usize) -> (s: ScrollBar)
        ensures
            s.rect == rect,
            s.current_page == current_page,
            s.total_pages == total_pages,
            !s.active,
            s.last_y == -1,
    {
        ScrollBar { rect, current_page, total_pages, active: false, last_y: -1 }
    }

    /// The rectangle of the track.
    pub fn rect(&self) -> (r: &Rectangle)
        ensures
            *r == self.rect,
    {
        &self.rect
    }

    /// Whether a finger is dragging on the scroll bar.
    pub fn is_active(&self) -> (b: bool)
        ensures
            b == self.active,
    {
        self.active
    }

    /// The height at which the finger was last seen.
    pub fn last_y(&self) -> (y: i32)
        ensures
            y == self.last_y,
    {
        self.last_y
    }

    /// Shows `current_page` of `total_pages`; returns whether the bar must be
    /// redrawn, which is so exactly when either number changed.
    pub fn update(&mut self, current_page: usize, total_pages: usize) -> (repaint: bool)
        ensures
            final(self).current_page == current_page,
            final(self).total_pages == total_pages,
            final(self).rect == old(self).rect,
            final(self).active == old(self).active,
            final(self).last_y == old(self).last_y,
            repaint == old(self).repaint_needed(current_page, total_pages),
    {
        if self.current_page != current_page || self.total_pages != total_pages {
            self.current_page = current_page;
            self.total_pages = total_pages;
            true
        } else {
            false
        }
    }

    /// Height of the thumb and distance it can travel, for a minimum thumb
    /// height of `min_thumb` pixels.
    fn thumb_metrics(&self, min_thumb: i32) -> (res: (i32, i32))
        requires
            fits_i32(self.track()),
            self.total_pages <= i32::MAX,
        ensures
            res.0 == self.spec_thumb_height(min_thumb as int),
            res.1 == self.spec_usable(min_thumb as int),
    {
        proof {
            lemma_thumb_height_bounds(self.track(), self.count(), min_thumb as int);
        }
        let total = self.total_pages.max(1);
        let track_height = self.rect.height();
        let thumb_height = (track_height / total as i32).max(min_thumb).min(track_height);
        let usable = (track_height - thumb_height).max(1);
        (thumb_height, usable)
    }

    /// The thumb's rectangle, for a minimum thumb height of `min_thumb` pixels.
    pub fn thumb_rect(&self, min_thumb: i32) -> (r: Rectangle)
        requires
            self.thumb_fits(min_thumb as int),
        ensures
            r == self.spec_thumb_rect(min_thumb as int),
    {
        let (thumb_height, usable) = self.thumb_metrics(min_thumb);
        let total = self.total_pages.max(1);
        proof {
            lemma_thumb_height_bounds(self.track(), self.count(), min_thumb as int);
            if total > 1 {
                lemma_mul_nonnegative(usable as int, self.current_page as int);
                lemma_mul_inequality(1, usable as int, self.current_page as int);
            }
        }
        let y_offset = if total > 1 {
            (usable * self.current_page as i32) / (total as i32 - 1)
        } else {
            0
        };
        assert(y_offset == self.spec_thumb_offset(min_thumb as int));
        Rectangle::new(
            self.rect.min.x,
            self.rect.min.y + y_offset,
            self.rect.max.x,
            self.rect.min.y + y_offset + thumb_height,
        )
    }

    /// The page selected by a touch at height `y`, for a minimum thumb height
    /// of `min_thumb` pixels; always a page of the bar.
    pub fn page_from_y(&self, y: i32, min_thumb: i32) -> (page: usize)
        requires
            self.page_fits(y as int, min_thumb as int),
        ensures
            page == self.spec_page_from_y(y as int, min_thumb as int),
            page < self.count(),
    {
        let (_thumb_height, usable) = self.thumb_metrics(min_thumb);
        let total = self.total_pages.max(1);
        let y_rel = clamp_i32(y - self.rect.min.y, 0, usable);
        if total <= 1 {
            return 0;
        }
        proof {
            lemma_mul_nonnegative(y_rel as int, total as int - 1);
        }
        clamp_i32((y_rel * (total as i32 - 1)) / usable, 0, total as i32 - 1) as usize
    }

    /// A finger goes down on the track.
    pub open spec fn presses(self, status: FingerStatus, position: Point) -> bool {
        status == FingerStatus::Down && self.rect.contains_point(position)
    }

    /// A finger that went down on the track moves to another height.
    pub open spec fn drags(self, status: FingerStatus, position: Point) -> bool {
        status == FingerStatus::Motion && self.active && position.y != self.last_y
    }

    /// A finger that went down on the track is lifted.
    pub open spec fn releases(self, status: FingerStatus) -> bool {
        status == FingerStatus::Up && self.active
    }

    /// The outcome of a finger event at `position` on this bar: `after` is the
    /// bar once the event is handled, `r` the reaction.
    pub open spec fn finger_post(
        self,
        after: ScrollBar,
        status: FingerStatus,
        position: Point,
        min_thumb: int,
        r: ScrollReaction,
    ) -> bool {
        &&& after.rect == self.rect
        &&& after.total_pages == self.total_pages
        &&& self.presses(status, position) || self.drags(status, position) ==> {
            let page = self.spec_page_from_y(position.y as int, min_thumb);
            let repaint = if self.presses(status, position) {
                Repaint::Gui
            } else {
                Repaint::FastMono
            };
            &&& r.handled
            &&& after.active
            &&& after.last_y == position.y
            &&& after.current_page == page
            &&& if page != self.current_page {
                r.repaint == Some(repaint) && r.scroll_to == Some(page as usize)
            } else {
                r.repaint.is_none() && r.scroll_to.is_none()
            }
        }
        &&& self.releases(status) ==> {
            &&& r.handled
            &&& !after.active
            &&& after.last_y == self.last_y
            &&& after.current_page == self.current_page
            &&& r.repaint == Some(Repaint::Gui)
            &&& r.scroll_to.is_none()
        }
        &&& !self.presses(status, position) && !self.drags(status, position) && !self.releases(
            status,
        ) ==> {
            &&& after == self
            &&& r.handled == self.active
            &&& r.repaint.is_none()
            &&& r.scroll_to.is_none()
        }
    }

    /// Reacts to a finger event at `position`, for a minimum thumb height of
    /// `min_thumb` pixels.
    ///
    /// A press on the track starts a drag; a press or a drag moves the bar to
    /// the page under the finger and, when that page differs from the shown
    /// one, asks for a redraw and for that page to be shown. Lifting the finger
    /// ends the drag and asks for a redraw. Any other finger event changes
    /// nothing and is consumed exactly while a drag is going on.
    pub fn handle_finger(&mut self, status: FingerStatus, position: Point, min_thumb: i32) -> (r:
        ScrollReaction)
        requires
            old(self).presses(status, position) || old(self).drags(status, position)
                ==> old(self).page_fits(position.y as int, min_thumb as int),
        ensures
            old(self).finger_post(*final(self), status, position, min_thumb as int, r),
            // A press outside the track (edges as in `Rectangle::includes`) changes nothing.
            status == FingerStatus::Down && !(old(self).rect.min.x <= position.x
                < old(self).rect.max.x && old(self).rect.min.y <= position.y
                < old(self).rect.max.y) ==> *final(self) == *old(self) && r.handled
                == old(self).active && r.repaint.is_none() && r.scroll_to.is_none(),
            // A page request always names the page the bar now shows, a page of the bar,
            // and is made exactly when the shown page changes.
            r.scroll_to.is_some() <==> final(self).current_page != old(self).current_page,
            r.scroll_to matches Some(p) ==> p == final(self).current_page && p < final(self).count(),
    {
        let pressed = match status {
            FingerStatus::Down => self.rect.includes(position),
            _ => false,
        };
        let dragged = match status {
            FingerStatus::Motion => self.active && position.y != self.last_y,
            _ => false,
        };
        let released = match status {
            FingerStatus::Up => self.active,
            _ => false,
        };
        if pressed || dragged {
            self.active = true;
            self.last_y = position.y;
            let page = self.page_from_y(position.y, min_thumb);
            if page != self.current_page {
                self.current_page = page;
                let repaint = if pressed {
                    Repaint::Gui
                } else {
                    Repaint::FastMono
                };
                ScrollReaction { handled: true, repaint: Some(repaint), scroll_to: Some(page) }
            } else {
                ScrollReaction { handled: true, repaint: None, scroll_to: None }
            }
        } else if released {
            self.active = false;
            ScrollReaction { handled: true, repaint: Some(Repaint::Gui), scroll_to: None }
        } else {
            ScrollReaction { handled: self.active, repaint: None, scroll_to: None }
        }
    }

    /// The thumb to draw, if any: there is one only when the bar has more than one page.
    pub fn visible_thumb(&self, min_thumb: i32) -> (t: Option<Rectangle>)
        requires
            self.total_pages > 1 ==> self.thumb_fits(min_thumb as int),
        ensures
            self.total_pages > 1 ==> t == Some(self.spec_thumb_rect(min_thumb as int)),
            self.total_pages <= 1 ==> t.is_none(),
    {
        if self.total_pages > 1 {
            Some(self.thumb_rect(min_thumb))
        } else {
            None
        }
    }
}

/// The page under the finger never goes back as the finger moves down the
/// track: `page_from_y` is non-decreasing in `y`.
pub proof fn lemma_page_from_y_monotone(bar: ScrollBar, y1: int, y2: int, min_thumb: int)
    requires
        y1 <= y2,
    ensures
        bar.spec_page_from_y(y1, min_thumb) <= bar.spec_page_from_y(y2, min_thumb),
{
    let count = bar.count();
    lemma_thumb_height_bounds(bar.track(), count, min_thumb);
    if count > 1 {
        let u = bar.spec_usable(min_thumb);
        let a1 = clamp(y1 - bar.rect.min.y, 0, u);
        let a2 = clamp(y2 - bar.rect.min.y, 0, u);
        lemma_mul_inequality(a1, a2, count - 1);
        lemma_div_is_ordered(a1 * (count - 1), a2 * (count - 1), u);
    }
}

/// The top of the track selects the first page and the bottom of the
/// thumb's travel (and everything below it) selects the last one.
pub proof fn lemma_page_from_y_ends(bar: ScrollBar, y: int, min_thumb: int)
    ensures
        y <= bar.rect.min.y ==> bar.spec_page_from_y(y, min_thumb) == 0,
        y >= bar.rect.min.y + bar.spec_usable(min_thumb) ==> bar.spec_page_from_y(y, min_thumb)
            == bar.count() - 1,
{
    let count = bar.count();
    lemma_thumb_height_bounds(bar.track(), count, min_thumb);
    if count > 1 {
        let u = bar.spec_usable(min_thumb);
        lemma_div_by_multiple(count - 1, u);
        lemma_mul_is_commutative(u, count - 1);
        lemma_div_by_multiple(0, u);
        assert(0 * (count - 1) == 0);
    }
}

/// When the track is taller than the thumb and the bar shows one of its
/// pages, the thumb lies within the track.
pub proof fn lemma_thumb_within_track(bar: ScrollBar, min_thumb: int)
    requires
        bar.current_page < bar.count(),
        bar.track() - bar.spec_thumb_height(min_thumb) >= 1,
    ensures
        0 <= bar.spec_thumb_height(min_thumb),
        0 <= bar.spec_thumb_offset(min_thumb),
        bar.spec_thumb_offset(min_thumb) + bar.spec_thumb_height(min_thumb) <= bar.track(),
{
    let count = bar.count();
    lemma_thumb_height_bounds(bar.track(), count, min_thumb);
    if count > 1 {
        let u = bar.spec_usable(min_thumb);
        let p = bar.current_page as int;
        lemma_mul_nonnegative(u, p);
        lemma_div_pos_is_pos(u * p, count - 1);
        lemma_mul_is_commutative(u, p);
        lemma_mul_is_commutative(u, count - 1);
        lemma_mul_inequality(p, count - 1, u);
        lemma_div_is_ordered(u * p, u * (count - 1), count - 1);
        lemma_div_by_multiple(u, count - 1);
    }
}

/// Moving the bar to the page under the finger never puts the top of the
/// thumb below the finger: the thumb of the selected page starts at or above
/// the touch point (taken within the thumb's travel).
pub proof fn lemma_thumb_follows_finger(bar: ScrollBar, y: int, min_thumb: int)
    ensures
        thumb_offset(bar.track(), bar.count(), min_thumb, bar.spec_page_from_y(y, min_thumb))
            <= clamp(y - bar.rect.min.y, 0, bar.spec_usable(min_thumb)),
{
    let count = bar.count();
    lemma_thumb_height_bounds(bar.track(), count, min_thumb);
    if count > 1 {
        let u = bar.spec_usable(min_thumb);
        let n = count - 1;
        let yr = clamp(y - bar.rect.min.y, 0, u);
        let q = (yr * n) / u;
        lemma_mul_nonnegative(yr, n);
        lemma_div_pos_is_pos(yr * n, u);
        lemma_mul_inequality(yr, u, n);
        lemma_mul_is_commutative(u, n);
        lemma_multiply_divide_le(yr * n, u, n);
        assert(bar.spec_page_from_y(y, min_thumb) == q);
        lemma_fundamental_div_mod(yr * n, u);
        assert(u * q <= yr * n);
        lemma_div_is_ordered(u * q, yr * n, n);
        lemma_div_by_multiple(yr, n);
    }
}

/// Touching the top edge of the thumb never moves the bar to a later page
/// than the one it shows.
pub proof fn lemma_thumb_top_selects_no_later_page(bar: ScrollBar, min_thumb: int)
    requires
        bar.current_page < bar.count(),
    ensures
        bar.spec_page_from_y(bar.rect.min.y + bar.spec_thumb_offset(min_thumb), min_thumb)
            <= bar.current_page,
{
    let count = bar.count();
    lemma_thumb_height_bounds(bar.track(), count, min_thumb);
    if count > 1 {
        let u = bar.spec_usable(min_thumb);
        let n = count - 1;
        let p = bar.current_page as int;
        let off = bar.spec_thumb_offset(min_thumb);
        lemma_mul_nonnegative(u, p);
        lemma_div_pos_is_pos(u * p, n);
        lemma_mul_is_commutative(u, p);
        lemma_mul_is_commutative(u, n);
        lemma_mul_inequality(p, n, u);
        lemma_div_is_ordered(u * p, u * n, n);
        lemma_div_by_multiple(u, n);
        assert(0 <= off <= u);
        lemma_fundamental_div_mod(u * p, n);
        assert(n * off <= u * p);
        lemma_mul_is_commutative(n, off);
        lemma_mul_nonnegative(off, n);
        lemma_div_is_ordered(off * n, p * u, u);
        lemma_div_by_multiple(p, u);
    }
}

/// The travel `(p * u + n - 1) / n`, rounded up from `p * u / n`, lies within
/// `[0, u]` and maps back to `p` when scaled by `n / u` and rounded down.
proof fn lemma_ceil_travel(p: int, u: int, n: int)
    requires
        0 <= p <= n,
        1 <= n <= u,
    ensures
        0 <= (p * u + n - 1) / n <= u,
        (((p * u + n - 1) / n) * n) / u == p,
{
    let x = p * u + n - 1;
    let c = x / n;
    lemma_mul_nonnegative(p, u);
    lemma_fundamental_div_mod(x, n);
    lemma_mod_pos_bound(x, n);
    let r = x % n;
    assert(n * c == x - r);
    assert(p * u <= n * c <= p * u + n - 1);
    assert(p * u <= n * u) by (nonlinear_arith)
        requires
            p <= n,
            u >= 0,
    ;
    assert(0 <= c <= u) by (nonlinear_arith)
        requires
            n * c >= 0,
            n * c <= n * u + n - 1,
            n > 0,
    ;
    lemma_mul_is_commutative(c, n);
    assert(c * n - p * u < u);
    lemma_fundamental_div_mod_converse_div(c * n, u, p, c * n - p * u);
}

/// Every page of a bar with at least two pages can be reached by a touch
/// inside the track, as long as the thumb is at least one pixel tall, shorter
/// than the track, and leaves the thumb at least one pixel of travel per page
/// boundary.
pub proof fn lemma_every_page_reachable(bar: ScrollBar, p: int, min_thumb: int)
    requires
        bar.total_pages >= 2,
        0 <= p < bar.total_pages,
        1 <= bar.spec_thumb_height(min_thumb) < bar.track(),
        bar.track() - bar.spec_thumb_height(min_thumb) >= bar.total_pages - 1,
    ensures
        exists|y: int|
            bar.rect.min.y <= y < bar.rect.max.y && #[trigger] bar.spec_page_from_y(y, min_thumb)
                == p,
{
    let u = bar.spec_usable(min_thumb);
    let n = bar.count() - 1;
    assert(u == bar.track() - bar.spec_thumb_height(min_thumb));
    lemma_ceil_travel(p, u, n);
    let c = (p * u + n - 1) / n;
    let y = bar.rect.min.y + c;
    assert(bar.spec_page_from_y(y, min_thumb) == p);
}

/// Once the bar shows `current_page` of `total_pages`, showing them again
/// asks for no redraw.
pub proof fn lemma_update_settles(bar: ScrollBar, current_page: usize, total_pages: usize)
    requires
        bar.current_page == current_page,
        bar.total_pages == total_pages,
    ensures
        !bar.repaint_needed(current_page, total_pages),
{
}

/// A finger put down outside the track, whether above, below, left or right
/// of it, neither moves the bar nor starts a drag: the bar is unchanged, no
/// redraw or page is asked for, and the event is consumed only while a drag
/// is already going on.
pub proof fn lemma_press_outside_track_ignored(
    bar: ScrollBar,
    after: ScrollBar,
    position: Point,
    min_thumb: int,
    r: ScrollReaction,
)
    requires
        bar.finger_post(after, FingerStatus::Down, position, min_thumb, r),
        position.x < bar.rect.min.x || position.x >= bar.rect.max.x || position.y < bar.rect.min.y
            || position.y >= bar.rect.max.y,
    ensures
        after == bar,
        r.handled == bar.active,
        r.repaint.is_none(),
        r.scroll_to.is_none(),
{
}

/// A finger put down inside the track starts a drag at its height and moves
/// the bar to the page under it, asking for a full redraw and for that page
/// exactly when it differs from the page shown.
pub proof fn lemma_press_inside_track(
    bar: ScrollBar,
    after: ScrollBar,
    position: Point,
    min_thumb: int,
    r: ScrollReaction,
)
    requires
        bar.finger_post(after, FingerStatus::Down, position, min_thumb, r),
        bar.rect.min.x <= position.x < bar.rect.max.x,
        bar.rect.min.y <= position.y < bar.rect.max.y,
    ensures
        r.handled,
        after.active,
        after.last_y == position.y,
        after.rect == bar.rect,
        after.total_pages == bar.total_pages,
        after.current_page == bar.spec_page_from_y(position.y as int, min_thumb),
        after.current_page < bar.count(),
        r.scroll_to.is_some() <==> after.current_page != bar.current_page,
        r.scroll_to.is_some() ==> r.scroll_to == Some(after.current_page) && r.repaint == Some(
            Repaint::Gui,
        ),
        r.scroll_to.is_none() ==> r.repaint.is_none(),
{
    lemma_page_at_bounds(bar, position.y as int, min_thumb);
}

/// The page selected at any height is a page of the bar.
pub proof fn lemma_page_at_bounds(bar: ScrollBar, y: int, min_thumb: int)
    ensures
        0 <= bar.spec_page_from_y(y, min_thumb) < bar.count(),
{
    lemma_thumb_height_bounds(bar.track(), bar.count(), min_thumb);
}

/// Without a drag going on, a motion or a lift of the finger is not for the
/// bar: nothing changes and nothing is asked for.
pub proof fn lemma_idle_bar_ignores_motion_and_lift(
    bar: ScrollBar,
    after: ScrollBar,
    status: FingerStatus,
    position: Point,
    min_thumb: int,
    r: ScrollReaction,
)
    requires
        !bar.active,
        status != FingerStatus::Down,
        bar.finger_post(after, status, position, min_thumb, r),
    ensures
        after == bar,
        !r.handled,
        r.repaint.is_none(),
        r.scroll_to.is_none(),
{
}

/// Lifting the finger during a drag ends the drag on the page shown, asks
/// for a full redraw and for no page.
pub proof fn lemma_lift_ends_drag(
    bar: ScrollBar,
    after: ScrollBar,
    position: Point,
    min_thumb: int,
    r: ScrollReaction,
)
    requires
        bar.active,
        bar.finger_post(after, FingerStatus::Up, position, min_thumb, r),
    ensures
        !after.active,
        after.current_page == bar.current_page,
        after.total_pages == bar.total_pages,
        after.rect == bar.rect,
        r.handled,
        r.repaint == Some(Repaint::Gui),
        r.scroll_to.is_none(),
{
}

/// The height of the thumb, for a track of non-negative height `t` divided
/// into `c` pages: never more than the track; the track's share per page
/// `t / c` when that is at least `min_thumb`; `min_thumb` when that share is
/// smaller and the track is at least `min_thumb` tall; the whole track when
/// it is shorter than `min_thumb`.
pub proof fn lemma_thumb_size(bar: ScrollBar, min_thumb: int)
    requires
        bar.track() >= 0,
    ensures
        ({
            let t = bar.track();
            let c: int = if bar.total_pages == 0 {
                1
            } else {
                bar.total_pages as int
            };
            let h = bar.spec_thumb_height(min_thumb);
            &&& 0 <= h <= t
            &&& min_thumb <= t / c ==> h == t / c
            &&& t / c <= min_thumb <= t ==> h == min_thumb
            &&& min_thumb > t ==> h == t
        }),
{
    lemma_thumb_height_bounds(bar.track(), bar.count(), min_thumb);
}

/// Where the thumb sits, for a bar of at least two pages: at the top of the
/// track on the first page, at the end of its travel on the last page, and
/// lower for later pages.
pub proof fn lemma_thumb_offset_order(bar: ScrollBar, min_thumb: int, p1: int, p2: int)
    requires
        bar.total_pages >= 2,
        0 <= p1 <= p2,
    ensures
        thumb_offset(bar.track(), bar.count(), min_thumb, 0) == 0,
        thumb_offset(bar.track(), bar.count(), min_thumb, bar.total_pages - 1) == bar.spec_usable(
            min_thumb,
        ),
        thumb_offset(bar.track(), bar.count(), min_thumb, p1) <= thumb_offset(
            bar.track(),
            bar.count(),
            min_thumb,
            p2,
        ),
{
    let u = bar.spec_usable(min_thumb);
    let n = bar.count() - 1;
    lemma_thumb_height_bounds(bar.track(), bar.count(), min_thumb);
    lemma_div_by_multiple(0, n);
    assert(u * 0 == 0);
    lemma_div_by_multiple(u, n);
    lemma_mul_is_commutative(u, n);
    lemma_mul_is_commutative(u, p1);
    lemma_mul_is_commutative(u, p2);
    lemma_mul_inequality(p1, p2, u);
    lemma_div_is_ordered(u * p1, u * p2, n);
}

} // verus!
