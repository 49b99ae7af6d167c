use vstd::prelude::*;

use crate::decimal::{
    add_num, int_num, integer_of, minus, mul_num, plus, pow_num, power, ratio, ratio_num,
    sub_num, times, Decimal,
};
use crate::view::{panned, zoomed, ViewState};

verus! {

/// The unit of a scroll-wheel amount.
#[derive(Clone, Copy, Debug, PartialEq, Eq)]
pub enum ScrollUnit {
    Line,
    Pixel,
}

/// One scroll-wheel event: a vertical amount and its unit.
#[derive(Clone, Copy, Debug)]
pub struct ScrollEvent {
    pub unit: ScrollUnit,
    pub amount: Decimal,
}

/// The zoom keys held during a tick.
#[derive(Clone, Copy, Debug, PartialEq, Eq)]
pub struct ZoomKeys {
    pub zoom_in: bool,
    pub zoom_out: bool,
    pub accelerate: bool,
}

/// Zoom per unit of scroll: a tenth per line, a thousandth per pixel.
pub open spec fn unit_step(u: ScrollUnit) -> Option<Decimal> {
    match u {
        ScrollUnit::Line => ratio(1, 10),
        ScrollUnit::Pixel => ratio(1, 1000),
    }
}

/// The factor of one scroll event: `1 - amount * step`.
pub open spec fn event_factor(e: ScrollEvent) -> Option<Decimal> {
    minus(integer_of(1), times(Some(e.amount), unit_step(e.unit)))
}

/// The product of the factors of a tick's scroll events, in order of arrival.
pub open spec fn scroll_factor(es: Seq<ScrollEvent>) -> Option<Decimal>
    decreases es.len(),
{
    if es.len() == 0 {
        integer_of(1)
    } else {
        times(scroll_factor(es.drop_last()), event_factor(es.last()))
    }
}

/// The zoom factor of a tick: the scroll product, times `98/100` with the
/// zoom-in key, times `102/100` with the zoom-out key, and the whole raised
/// to `5/2` with the accelerate key.
pub open spec fn tick_factor(es: Seq<ScrollEvent>, keys: ZoomKeys) -> Option<Decimal> {
    let f0 = scroll_factor(es);
    let f1 = if keys.zoom_in { times(f0, ratio(98, 100)) } else { f0 };
    let f2 = if keys.zoom_out { times(f1, ratio(102, 100)) } else { f1 };
    if keys.accelerate { power(f2, ratio(5, 2)) } else { f2 }
}

/// Sum of the drag deltas of one tick, component by component, from zero.
pub open spec fn total_delta(ds: Seq<(Decimal, Decimal)>) -> (Option<Decimal>, Option<Decimal>)
    decreases ds.len(),
{
    if ds.len() == 0 {
        (Some(Decimal::spec_zero()), Some(Decimal::spec_zero()))
    } else {
        let t = total_delta(ds.drop_last());
        (plus(t.0, Some(ds.last().0)), plus(t.1, Some(ds.last().1)))
    }
}

/// The factor of one scroll event.
pub fn scroll_event_factor(e: &ScrollEvent) -> (r: Option<Decimal>)
    ensures
        r == event_factor(*e),
{
    let step = match e.unit {
        ScrollUnit::Line => ratio_num(1, 10),
        ScrollUnit::Pixel => ratio_num(1, 1000),
    };
    sub_num(&int_num(1), &mul_num(&Some(e.amount), &step))
}

/// The zoom factor of a tick; `None` when it is not finite.
pub fn zoom_factor(events: &Vec<ScrollEvent>, keys: ZoomKeys) -> (r: Option<Decimal>)
    ensures
        r == tick_factor(events@, keys),
{
    let mut f = int_num(1);
    let mut i: usize = 0;
    while i < events.len()
        invariant
            0 <= i <= events@.len(),
            f == scroll_factor(events@.subrange(0, i as int)),
        decreases events@.len() - i,
    {
        proof {
            let s = events@.subrange(0, i as int + 1);
            assert(s.drop_last() =~= events@.subrange(0, i as int));
            assert(s.last() == events@[i as int]);
        }
        f = mul_num(&f, &scroll_event_factor(&events[i]));
        i = i + 1;
    }
    assert(events@.subrange(0, events@.len() as int) =~= events@);
    if keys.zoom_in {
        f = mul_num(&f, &ratio_num(98, 100));
    }
    if keys.zoom_out {
        f = mul_num(&f, &ratio_num(102, 100));
    }
    if keys.accelerate {
        f = pow_num(&f, &ratio_num(5, 2));
    }
    f
}

/// Sums the drag deltas of a tick.
pub fn sum_deltas(deltas: &Vec<(Decimal, Decimal)>) -> (r: (Option<Decimal>, Option<Decimal>))
    ensures
        r == total_delta(deltas@),
{
    let mut sx = Some(Decimal::zero());
    let mut sy = Some(Decimal::zero());
    let mut i: usize = 0;
    while i < deltas.len()
        invariant
            0 <= i <= deltas@.len(),
            (sx, sy) == total_delta(deltas@.subrange(0, i as int)),
        decreases deltas@.len() - i,
    {
        proof {
            let s = deltas@.subrange(0, i as int + 1);
            assert(s.drop_last() =~= deltas@.subrange(0, i as int));
            assert(s.last() == deltas@[i as int]);
        }
        let (dx, dy) = deltas[i];
        sx = add_num(&sx, &Some(dx));
        sy = add_num(&sy, &Some(dy));
        i = i + 1;
    }
    assert(deltas@.subrange(0, deltas@.len() as int) =~= deltas@);
    (sx, sy)
}

/// Whether a tick's zoom input changes the view: a cursor is present, the
/// factor is finite and the zoomed view is finite with a positive range.
pub open spec fn zoom_applies(
    v: ViewState,
    cursor: Option<(Decimal, Decimal)>,
    es: Seq<ScrollEvent>,
    keys: ZoomKeys,
) -> bool {
    match (cursor, tick_factor(es, keys)) {
        (Some(p), Some(f)) => zoomed(v, p.0, p.1, f) is Some,
        _ => false,
    }
}

/// The view after a tick's zoom input.
pub open spec fn after_zoom(
    v: ViewState,
    cursor: Option<(Decimal, Decimal)>,
    es: Seq<ScrollEvent>,
    keys: ZoomKeys,
) -> ViewState {
    match (cursor, tick_factor(es, keys)) {
        (Some(p), Some(f)) => match zoomed(v, p.0, p.1, f) {
            Some(w) => w,
            None => v,
        },
        _ => v,
    }
}

/// Whether a tick's drag input changes the view: the button is held and the
/// summed delta and the panned view are finite.
pub open spec fn drag_applies(v: ViewState, held: bool, ds: Seq<(Decimal, Decimal)>) -> bool {
    held && match total_delta(ds) {
        (Some(dx), Some(dy)) => panned(v, dx, dy) is Some,
        _ => false,
    }
}

/// The view after a tick's drag input.
pub open spec fn after_drag(v: ViewState, held: bool, ds: Seq<(Decimal, Decimal)>) -> ViewState {
    if !held {
        v
    } else {
        match total_delta(ds) {
            (Some(dx), Some(dy)) => match panned(v, dx, dy) {
                Some(w) => w,
                None => v,
            },
            _ => v,
        }
    }
}

impl ViewState {
    /// Applies a tick's zoom input: the factors of all events and keys are
    /// multiplied first and applied once, anchored at the cursor. Without a
    /// cursor the input is dropped and the view stays as it is.
    pub fn zoom_tick(
        &mut self,
        cursor: Option<(Decimal, Decimal)>,
        events: &Vec<ScrollEvent>,
        keys: ZoomKeys,
    ) -> (r: bool)
        requires
            old(self).wf(),
        ensures
            final(self).wf(),
            cursor is None ==> !r && *final(self) == *old(self),
            *final(self) == after_zoom(*old(self), cursor, events@, keys),
            r == zoom_applies(*old(self), cursor, events@, keys),
    {
        if cursor.is_none() {
            return false;
        }
        match zoom_factor(events, keys) {
            Some(f) => self.zoom(cursor, &f),
            None => false,
        }
    }

    /// Applies a tick's drag input: with the drag button held the deltas
    /// are summed and the view pans once by the sum; without it the input
    /// is dropped and the view stays as it is.
    pub fn drag_tick(&mut self, button_held: bool, deltas: &Vec<(Decimal, Decimal)>) -> (r: bool)
        requires
            old(self).wf(),
        ensures
            final(self).wf(),
            *final(self) == after_drag(*old(self), button_held, deltas@),
            r == drag_applies(*old(self), button_held, deltas@),
            !button_held ==> !r && *final(self) == *old(self),
            button_held ==> match total_delta(deltas@) {
                (Some(dx), Some(dy)) => match panned(*old(self), dx, dy) {
                    Some(v) => r && *final(self) == v,
                    None => !r && *final(self) == *old(self),
                },
                _ => !r && *final(self) == *old(self),
            },
    {
        if !button_held {
            return false;
        }
        match sum_deltas(deltas) {
            (Some(dx), Some(dy)) => self.pan(&dx, &dy),
            _ => false,
        }
    }
}

} // verus!
