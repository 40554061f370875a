//! Following the Codex window: where the widget belongs, when it is moved, and
//! when a drag of the user is remembered.

use vstd::prelude::*;

use crate::codex::{DetectedCodex, WinRect};

verus! {

/// The distance of the widget from the left edge of the content, in logical
/// pixels.
pub const WIDGET_LEFT_INSET_L: i32 = 0;

/// The height of the account area at the bottom, in logical pixels.
pub const ACCOUNT_AREA_H_L: i32 = 36;

/// The distance of the widget from the account area, in logical pixels.
pub const WIDGET_BOTTOM_GAP_L: i32 = 10;

/// The height of the widget while its rectangle is not known, in physical pixels.
pub const WIDGET_DEFAULT_H: i32 = 38;

/// The time between two looks at the windows, in milliseconds.
pub const POLL_MS: u64 = 5;

/// The time after the last drag before the position is saved, in milliseconds.
pub const SAVE_DELAY_MS: u64 = 500;

/// How far off, in pixels, the widget may be before it is moved.
pub const MOVE_TOLERANCE: i64 = 1;

/// How far off, in pixels, the widget may be before that counts as a drag.
pub const DRAG_TOLERANCE: i64 = 3;

/// What is seen at one look, in physical pixels.
#[derive(Clone, Copy, Debug, PartialEq, Eq, Structural)]
pub struct Frame {
    /// Whether the user asked for the widget to go to its place.
    pub force_reposition: bool,
    /// The Codex window, if there is one.
    pub codex: Option<DetectedCodex>,
    /// The widget's rectangle, if it is known.
    pub widget: Option<WinRect>,
    /// The distance from the left edge of the content.
    pub inset: i32,
    /// The distance from the bottom of the content to the bottom of the widget.
    pub lift: i32,
    /// The remembered offset from the default place.
    pub offset_x: i32,
    pub offset_y: i32,
    /// Whether the widget is shown.
    pub visible: bool,
}

/// What is to be done after one look.
#[derive(Clone, Copy, Debug, PartialEq, Eq)]
pub struct Step {
    /// Move the widget's upper left corner to this place.
    pub move_to: Option<(i32, i32)>,
    /// Remember this offset from the default place, in physical pixels.
    pub record: Option<(i64, i64)>,
    pub show: bool,
    pub hide: bool,
}

/// What is remembered from one look to the next.
#[derive(Clone, Copy, Debug, PartialEq, Eq, Structural)]
pub struct Follower {
    /// The rectangle of the Codex window at the last look, if it was there.
    pub last_codex: Option<WinRect>,
    /// Whether a drag is not saved yet.
    pub need_save: bool,
}

impl Frame {
    /// The height of the widget.
    pub open spec fn height(self) -> int {
        match self.widget {
            Some(w) => w.bottom - w.top,
            None => WIDGET_DEFAULT_H as int,
        }
    }

    /// The default place of the widget's left edge beside the content `codex`.
    pub open spec fn base_x(self, codex: WinRect) -> int {
        codex.left + self.inset
    }

    /// The default place of the widget's upper edge beside the content `codex`:
    /// its lower edge stands just above the account area.
    pub open spec fn base_y(self, codex: WinRect) -> int {
        codex.bottom - self.lift - self.height()
    }

    /// The place of the widget's left edge.
    pub open spec fn expected_x(self, codex: WinRect) -> int {
        self.base_x(codex) + self.offset_x
    }

    /// The place of the widget's upper edge.
    pub open spec fn expected_y(self, codex: WinRect) -> int {
        self.base_y(codex) + self.offset_y
    }

    /// The content of the Codex window, where it can be seen.
    pub open spec fn shown_codex(self) -> Option<WinRect> {
        match self.codex {
            Some(c) => if c.minimized {
                None
            } else {
                Some(c.rect)
            },
            None => None,
        }
    }

    /// Whether the places of the widget are coordinates of 32 bits, as far as
    /// they are computed.
    pub open spec fn fits(self) -> bool {
        self.shown_codex() matches Some(codex) ==> {
            &&& i32::MIN <= self.height() <= i32::MAX
            &&& i32::MIN <= self.base_x(codex) <= i32::MAX
            &&& i32::MIN <= codex.bottom - self.lift <= i32::MAX
            &&& i32::MIN <= self.base_y(codex) <= i32::MAX
            &&& i32::MIN <= self.expected_x(codex) <= i32::MAX
            &&& i32::MIN <= self.expected_y(codex) <= i32::MAX
        }
    }

    /// Whether the widget is known to be off its place by more than `tolerance`.
    pub open spec fn is_off(self, codex: WinRect, tolerance: int) -> bool {
        match self.widget {
            Some(w) => {
                ||| w.left - self.expected_x(codex) > tolerance
                ||| self.expected_x(codex) - w.left > tolerance
                ||| w.top - self.expected_y(codex) > tolerance
                ||| self.expected_y(codex) - w.top > tolerance
            },
            None => false,
        }
    }

    /// The offset of the widget from its default place.
    pub open spec fn current_offset(self, codex: WinRect) -> (int, int) {
        match self.widget {
            Some(w) => (w.left - self.base_x(codex), w.top - self.base_y(codex)),
            None => (0, 0),
        }
    }
}

/// What is to be done after a look at `f`, where `last` is the rectangle of the
/// Codex window at the look before.
///
/// A Codex window that has moved takes the widget with it. Where it stands still
/// and the widget is elsewhere, the user drags the widget, and its offset is
/// remembered. Without a Codex window to be seen, the widget is hidden.
pub open spec fn next_step(last: Option<WinRect>, f: Frame) -> Step {
    match f.shown_codex() {
        Some(codex) => {
            let still = !f.force_reposition && last == Some(codex);
            Step {
                move_to: if !still && f.is_off(codex, MOVE_TOLERANCE as int) {
                    Some((f.expected_x(codex) as i32, f.expected_y(codex) as i32))
                } else {
                    None
                },
                record: if still && f.is_off(codex, DRAG_TOLERANCE as int) {
                    Some((f.current_offset(codex).0 as i64, f.current_offset(codex).1 as i64))
                } else {
                    None
                },
                show: !f.visible,
                hide: false,
            }
        },
        None => Step { move_to: None, record: None, show: false, hide: true },
    }
}

fn apart(a: i32, b: i32, tolerance: i64) -> (r: bool)
    requires
        0 <= tolerance <= 10,
    ensures
        r == (a - b > tolerance || b - a > tolerance),
{
    let d: i64 = a as i64 - b as i64;
    d > tolerance || -d > tolerance
}

fn narrow(n: i64) -> (r: bool)
    ensures
        r == (i32::MIN <= n <= i32::MAX),
{
    -0x8000_0000 <= n && n <= 0x7fff_ffff
}

/// Whether the places of the widget are coordinates of 32 bits, as far as they
/// are computed.
pub fn frame_fits(f: &Frame) -> (r: bool)
    ensures
        r == f.fits(),
{
    match f.codex {
        Some(c) => {
            if c.minimized {
                return true;
            }
            let height: i64 = match f.widget {
                Some(w) => w.bottom as i64 - w.top as i64,
                None => WIDGET_DEFAULT_H as i64,
            };
            let base_x: i64 = c.rect.left as i64 + f.inset as i64;
            let floor: i64 = c.rect.bottom as i64 - f.lift as i64;
            let base_y: i64 = floor - height;
            narrow(height) && narrow(base_x) && narrow(floor) && narrow(base_y) && narrow(
                base_x + f.offset_x as i64,
            ) && narrow(base_y + f.offset_y as i64)
        },
        None => true,
    }
}

impl Follower {
    /// A follower that has not looked yet.
    pub fn new() -> (r: Follower)
        ensures
            r.last_codex is None,
            !r.need_save,
    {
        Follower { last_codex: None, need_save: false }
    }

    /// One look: what is to be done, and what is remembered of it.
    pub fn follow(&mut self, f: &Frame) -> (r: Step)
        requires
            f.fits(),
        ensures
            r == next_step(old(self).last_codex, *f),
            final(self).last_codex == f.shown_codex(),
            final(self).need_save == (old(self).need_save || r.record is Some),
    {
        let last: Option<WinRect> = if f.force_reposition {
            None
        } else {
            self.last_codex
        };
        let codex: WinRect = match f.codex {
            Some(c) if !c.minimized => c.rect,
            _ => {
                self.last_codex = None;
                return Step { move_to: None, record: None, show: false, hide: true };
            },
        };
        let height: i32 = match f.widget {
            Some(w) => w.bottom - w.top,
            None => WIDGET_DEFAULT_H,
        };
        let base_x: i32 = codex.left + f.inset;
        let base_y: i32 = codex.bottom - f.lift - height;
        let expected_x: i32 = base_x + f.offset_x;
        let expected_y: i32 = base_y + f.offset_y;
        let still: bool = match last {
            Some(rect) => rect == codex,
            None => false,
        };
        let mut step: Step = Step {
            move_to: None,
            record: None,
            show: !f.visible,
            hide: false,
        };
        match f.widget {
            Some(w) => {
                if !still {
                    if apart(w.left, expected_x, MOVE_TOLERANCE) || apart(
                        w.top,
                        expected_y,
                        MOVE_TOLERANCE,
                    ) {
                        step.move_to = Some((expected_x, expected_y));
                    }
                } else if apart(w.left, expected_x, DRAG_TOLERANCE) || apart(
                    w.top,
                    expected_y,
                    DRAG_TOLERANCE,
                ) {
                    step.record = Some(
                        (w.left as i64 - base_x as i64, w.top as i64 - base_y as i64),
                    );
                    self.need_save = true;
                }
            },
            None => {},
        }
        self.last_codex = Some(codex);
        step
    }

    /// Whether the remembered position is to be saved now: once, some time after
    /// the last drag, so that a drag does not write again and again.
    pub fn save_due(&mut self, since_drag_ms: u64) -> (r: bool)
        ensures
            r == (old(self).need_save && since_drag_ms >= SAVE_DELAY_MS),
            r == (old(self).need_save && since_drag_ms >= 500),
            final(self).last_codex == old(self).last_codex,
            final(self).need_save == (old(self).need_save && !r),
    {
        if self.need_save && since_drag_ms >= SAVE_DELAY_MS {
            self.need_save = false;
            true
        } else {
            false
        }
    }
}

// ---------------------------------------------------------------------------
// How the widget follows
// ---------------------------------------------------------------------------

/// The widget is hidden exactly while no Codex window can be seen, and nothing
/// else is done then.
pub proof fn law_hidden_without_codex(last: Option<WinRect>, f: Frame)
    ensures
        next_step(last, f).hide <==> f.shown_codex() is None,
        next_step(last, f).hide ==> {
            &&& next_step(last, f).move_to is None
            &&& next_step(last, f).record is None
            &&& !next_step(last, f).show
        },
{
}

/// The widget is shown as soon as the Codex window can be seen.
pub proof fn law_shown_with_codex(last: Option<WinRect>, f: Frame)
    requires
        f.shown_codex() is Some,
    ensures
        next_step(last, f).show <==> !f.visible,
{
}

/// The widget is never moved against a drag: no look both moves it and remembers
/// where it is.
pub proof fn law_move_or_record(last: Option<WinRect>, f: Frame)
    ensures
        next_step(last, f).move_to is None || next_step(last, f).record is None,
{
}

/// A Codex window that was moved, resized, restored or has just opened, or a
/// request of the user, takes the widget to its place and records nothing.
pub proof fn law_moved_codex_takes_the_widget(last: Option<WinRect>, f: Frame, codex: WinRect)
    requires
        f.fits(),
        f.shown_codex() == Some(codex),
        last != Some(codex) || f.force_reposition,
    ensures
        next_step(last, f).record is None,
        f.is_off(codex, MOVE_TOLERANCE as int) ==> next_step(last, f).move_to == Some(
            (f.expected_x(codex) as i32, f.expected_y(codex) as i32),
        ),
        next_step(last, f).move_to matches Some(p) ==> p.0 == f.expected_x(codex) && p.1
            == f.expected_y(codex),
{
}

/// The frame in which the widget has its upper left corner at (`x`, `y`) and its
/// size unchanged.
pub open spec fn moved(f: Frame, x: int, y: int) -> Frame {
    match f.widget {
        Some(w) => Frame {
            widget: Some(
                WinRect {
                    left: x as i32,
                    top: y as i32,
                    right: (x + (w.right - w.left)) as i32,
                    bottom: (y + (w.bottom - w.top)) as i32,
                },
            ),
            ..f
        },
        None => f,
    }
}

/// At its place the widget rests: after a move nothing is left to be done, with
/// a Codex window that stands still.
pub proof fn law_widget_rests_at_its_place(last: Option<WinRect>, f: Frame, codex: WinRect)
    requires
        f.fits(),
        f.shown_codex() == Some(codex),
        f.widget matches Some(w) && i32::MIN <= f.expected_y(codex) + (w.bottom - w.top)
            <= i32::MAX,
    ensures
        ({
            let after = moved(f, f.expected_x(codex), f.expected_y(codex));
            &&& next_step(last, after).move_to is None
            &&& next_step(last, after).record is None
        }),
{
}

/// The frame in which the offset (`x`, `y`) is remembered.
pub open spec fn remembering(f: Frame, x: int, y: int) -> Frame {
    Frame { offset_x: x as i32, offset_y: y as i32, ..f }
}

/// A drag is remembered: with the recorded offset the place of the widget is
/// where the user left it.
pub proof fn law_drag_is_remembered(last: Option<WinRect>, f: Frame, codex: WinRect, at: WinRect)
    requires
        f.shown_codex() == Some(codex),
        f.widget == Some(at),
        next_step(last, f).record is Some,
        i32::MIN <= f.current_offset(codex).0 <= i32::MAX,
        i32::MIN <= f.current_offset(codex).1 <= i32::MAX,
    ensures
        ({
            let (x, y) = next_step(last, f).record->0;
            let after = remembering(f, x as int, y as int);
            &&& after.expected_x(codex) == at.left
            &&& after.expected_y(codex) == at.top
            &&& next_step(Some(codex), after).record is None
            &&& next_step(Some(codex), after).move_to is None
        }),
{
}

/// The remembered offset is relative to the Codex window: where its left edge
/// and its bottom go, the place of the widget goes too.
pub proof fn law_offset_is_relative(f: Frame, here: WinRect, there: WinRect)
    ensures
        f.expected_x(there) - f.expected_x(here) == there.left - here.left,
        f.expected_y(there) - f.expected_y(here) == there.bottom - here.bottom,
{
}

/// With no offset remembered, the widget's lower edge stands `lift` above the
/// bottom of the content and its left edge `inset` right of the content's.
pub proof fn law_default_place(f: Frame, codex: WinRect)
    requires
        f.offset_x == 0,
        f.offset_y == 0,
    ensures
        f.expected_x(codex) == codex.left + f.inset,
        f.expected_y(codex) + f.height() == codex.bottom - f.lift,
{
}

// ---------------------------------------------------------------------------
// The same in coordinates
// ---------------------------------------------------------------------------

/// With a Codex window that has moved, or on request, the widget is moved exactly
/// where it is more than one pixel off its place on either axis, and then to that
/// place. So where it is not moved, it is within one pixel of it on both axes.
pub proof fn law_widget_is_moved_to_its_place(
    last: Option<WinRect>,
    f: Frame,
    rect: WinRect,
    w: WinRect,
)
    requires
        f.fits(),
        f.codex == Some(DetectedCodex { rect, minimized: false }),
        f.widget == Some(w),
        f.force_reposition || last != Some(rect),
    ensures
        ({
            let x = rect.left + f.inset + f.offset_x;
            let y = rect.bottom - f.lift - (w.bottom - w.top) + f.offset_y;
            let step = next_step(last, f);
            &&& step.record is None
            &&& step.move_to is None <==> -1 <= w.left - x <= 1 && -1 <= w.top - y <= 1
            &&& step.move_to matches Some(to) ==> to.0 == x && to.1 == y
        }),
{
}

/// With a Codex window that stands still, the offset of the widget is recorded
/// exactly where it is more than three pixels off its place on either axis, and
/// then it is the distance from the default place. The widget is not moved.
pub proof fn law_drag_is_recorded(f: Frame, rect: WinRect, w: WinRect)
    requires
        f.fits(),
        f.codex == Some(DetectedCodex { rect, minimized: false }),
        f.widget == Some(w),
        !f.force_reposition,
    ensures
        ({
            let x = rect.left + f.inset;
            let y = rect.bottom - f.lift - (w.bottom - w.top);
            let step = next_step(Some(rect), f);
            &&& step.move_to is None
            &&& step.record is None <==> -3 <= w.left - (x + f.offset_x) <= 3 && -3 <= w.top - (y
                + f.offset_y) <= 3
            &&& step.record matches Some(at) ==> at.0 == w.left - x && at.1 == w.top - y
        }),
{
}

/// The widget goes with the window: one that stood at its place is moved by as
/// much as the left edge and the bottom of the Codex window went, on either axis
/// or both, as soon as that is more than one pixel.
pub proof fn law_widget_goes_with_the_window(f: Frame, here: WinRect, there: WinRect, w: WinRect)
    requires
        f.fits(),
        f.codex == Some(DetectedCodex { rect: there, minimized: false }),
        f.widget == Some(w),
        w.left == here.left + f.inset + f.offset_x,
        w.top == here.bottom - f.lift - (w.bottom - w.top) + f.offset_y,
    ensures
        there.left - here.left > 1 || here.left - there.left > 1 || there.bottom - here.bottom > 1
            || here.bottom - there.bottom > 1 ==> ({
            let step = next_step(Some(here), f);
            &&& step.move_to matches Some(to)
            &&& to.0 - w.left == there.left - here.left
            &&& to.1 - w.top == there.bottom - here.bottom
        }),
{
}

/// A widget whose rectangle is not known is neither moved nor taken for dragged.
pub proof fn law_unknown_widget_is_left_alone(last: Option<WinRect>, f: Frame)
    requires
        f.widget is None,
    ensures
        next_step(last, f).move_to is None,
        next_step(last, f).record is None,
{
}

/// The Codex window counts while it is there and not minimised: then the widget is
/// shown where it is not, and never hidden; otherwise it is hidden, and nothing
/// else is done. That window is what the next look is compared with.
pub proof fn law_window_counts_while_not_minimised(last: Option<WinRect>, f: Frame, rect: WinRect)
    ensures
        f.shown_codex() == Some(rect) <==> f.codex == Some(
            DetectedCodex { rect, minimized: false },
        ),
        f.codex == Some(DetectedCodex { rect, minimized: false }) ==> {
            &&& !next_step(last, f).hide
            &&& next_step(last, f).show == !f.visible
        },
        f.codex is None || f.codex->0.minimized ==> {
            &&& f.shown_codex() is None
            &&& next_step(last, f).hide
            &&& !next_step(last, f).show
            &&& next_step(last, f).move_to is None
            &&& next_step(last, f).record is None
        },
{
}

/// A look can be followed where the height of the widget, its default place and
/// its place are coordinates of 32 bits, and always where no Codex window counts.
/// A widget of unknown size is taken to be 38 pixels high.
pub proof fn law_looks_that_fit(f: Frame, rect: WinRect)
    ensures
        f.codex is None || f.codex->0.minimized ==> f.fits(),
        f.codex == Some(DetectedCodex { rect, minimized: false }) ==> (f.fits() <==> {
            let height = if f.widget is Some {
                f.widget->0.bottom - f.widget->0.top
            } else {
                38
            };
            let x = rect.left + f.inset;
            let floor = rect.bottom - f.lift;
            &&& -0x8000_0000 <= height <= 0x7fff_ffff
            &&& -0x8000_0000 <= x <= 0x7fff_ffff
            &&& -0x8000_0000 <= floor <= 0x7fff_ffff
            &&& -0x8000_0000 <= floor - height <= 0x7fff_ffff
            &&& -0x8000_0000 <= x + f.offset_x <= 0x7fff_ffff
            &&& -0x8000_0000 <= floor - height + f.offset_y <= 0x7fff_ffff
        }),
{
}

// ---------------------------------------------------------------------------
// What the follower does
// ---------------------------------------------------------------------------

/// `follow` on a Codex window that is not where it was at the last look, or on
/// request: the widget is moved to its place where it is more than one pixel off
/// it on either axis, and is not moved where it is within one pixel on both. No
/// drag is recorded.
pub proof fn law_follow_moves_the_widget(
    follower: &mut Follower,
    f: &Frame,
    step: Step,
    rect: WinRect,
    w: WinRect,
)
    requires
        call_ensures(Follower::follow, (follower, f), step),
        f.fits(),
        f.codex == Some(DetectedCodex { rect, minimized: false }),
        f.widget == Some(w),
        f.force_reposition || old(follower).last_codex != Some(rect),
    ensures
        ({
            let x = rect.left + f.inset + f.offset_x;
            let y = rect.bottom - f.lift - (w.bottom - w.top) + f.offset_y;
            let off = w.left - x > 1 || x - w.left > 1 || w.top - y > 1 || y - w.top > 1;
            &&& off ==> (step.move_to matches Some(to) && to.0 == x && to.1 == y)
            &&& !off ==> step.move_to is None
        }),
        step.record is None,
        step.show == !f.visible,
        !step.hide,
        final(follower).last_codex == Some(rect),
        final(follower).need_save == old(follower).need_save,
{
    law_widget_is_moved_to_its_place(old(follower).last_codex, *f, rect, w);
}

/// `follow` on a Codex window that stands where it stood at the last look: the
/// widget is not moved, and its distance from the default place is recorded, to be
/// saved, where it is more than three pixels off its place on either axis.
pub proof fn law_follow_records_a_drag(
    follower: &mut Follower,
    f: &Frame,
    step: Step,
    rect: WinRect,
    w: WinRect,
)
    requires
        call_ensures(Follower::follow, (follower, f), step),
        f.fits(),
        f.codex == Some(DetectedCodex { rect, minimized: false }),
        f.widget == Some(w),
        !f.force_reposition,
        old(follower).last_codex == Some(rect),
    ensures
        ({
            let x = rect.left + f.inset;
            let y = rect.bottom - f.lift - (w.bottom - w.top);
            let dragged = w.left - (x + f.offset_x) > 3 || (x + f.offset_x) - w.left > 3 || w.top
                - (y + f.offset_y) > 3 || (y + f.offset_y) - w.top > 3;
            &&& dragged ==> (step.record matches Some(at) && at.0 == w.left - x && at.1 == w.top
                - y)
            &&& !dragged ==> step.record is None
            &&& final(follower).need_save == (old(follower).need_save || dragged)
        }),
        step.move_to is None,
        step.show == !f.visible,
        !step.hide,
        final(follower).last_codex == Some(rect),
{
    law_drag_is_recorded(*f, rect, w);
}

/// `follow` without a Codex window, or with a minimised one: the widget is hidden,
/// and the next window that comes takes it along.
pub proof fn law_follow_hides_the_widget(follower: &mut Follower, f: &Frame, step: Step)
    requires
        call_ensures(Follower::follow, (follower, f), step),
        f.codex is None || f.codex->0.minimized,
    ensures
        step.hide,
        !step.show,
        step.move_to is None,
        step.record is None,
        final(follower).last_codex is None,
        final(follower).need_save == old(follower).need_save,
{
}

/// Two looks at a Codex window that stands still: the second never moves the
/// widget, wherever it is, unless the user asks for it.
pub proof fn law_second_look_does_not_move_the_widget(
    follower: &mut Follower,
    f: &Frame,
    step: Step,
    next: &mut Follower,
    g: &Frame,
    second: Step,
    rect: WinRect,
)
    requires
        call_ensures(Follower::follow, (follower, f), step),
        *old(next) == *final(follower),
        call_ensures(Follower::follow, (next, g), second),
        f.codex == Some(DetectedCodex { rect, minimized: false }),
        g.codex == f.codex,
        !g.force_reposition,
    ensures
        second.move_to is None,
{
}

/// `save_due` asks for one save, half a second after the last drag, and leaves the
/// rest alone.
pub proof fn law_drag_is_saved_once(
    follower: &mut Follower,
    since_drag_ms: u64,
    due: bool,
    next: &mut Follower,
    later_ms: u64,
    again: bool,
)
    requires
        call_ensures(Follower::save_due, (follower, since_drag_ms), due),
        *old(next) == *final(follower),
        call_ensures(Follower::save_due, (next, later_ms), again),
    ensures
        due <==> old(follower).need_save && since_drag_ms >= 500,
        due ==> !again,
        final(follower).last_codex == old(follower).last_codex,
{
}

/// A new follower takes the widget to its place at the first look that shows a
/// Codex window, wherever that is, and has nothing to save.
pub proof fn law_first_look_places_the_widget(
    start: Follower,
    follower: &mut Follower,
    f: &Frame,
    step: Step,
    rect: WinRect,
    w: WinRect,
)
    requires
        call_ensures(Follower::new, (), start),
        *old(follower) == start,
        call_ensures(Follower::follow, (follower, f), step),
        f.fits(),
        f.codex == Some(DetectedCodex { rect, minimized: false }),
        f.widget == Some(w),
    ensures
        !final(follower).need_save,
        step.record is None,
        ({
            let x = rect.left + f.inset + f.offset_x;
            let y = rect.bottom - f.lift - (w.bottom - w.top) + f.offset_y;
            &&& step.move_to is None <==> -1 <= w.left - x <= 1 && -1 <= w.top - y <= 1
            &&& step.move_to matches Some(to) ==> to.0 == x && to.1 == y
        }),
{
    law_widget_is_moved_to_its_place(old(follower).last_codex, *f, rect, w);
}

/// `frame_fits` tells the looks that `follow` takes: those without a Codex window
/// that counts, and those in which all places are coordinates of 32 bits.
pub proof fn law_frame_fits_tells_what_can_be_followed(f: &Frame, r: bool)
    requires
        call_ensures(frame_fits, (f,), r),
    ensures
        r == f.fits(),
        f.codex is None || f.codex->0.minimized ==> r,
{
}

} // verus!
