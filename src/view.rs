use vstd::prelude::*;

use crate::decimal::{
    add_num, div_num, int_num, integer_of, minus, mul_num, over, plus, positive, ratio, ratio_num,
    sub_num, times, Decimal,
};

verus! {

/// What portion of the complex plane is visible: the plane point at the
/// viewport's centre, the plane height that the viewport spans, the window's
/// size in pixels, and the iteration budget of the reference orbit.
#[derive(Clone, Copy, Debug)]
pub struct ViewState {
    pub center_re: Decimal,
    pub center_im: Decimal,
    pub range: Decimal,
    pub width: Decimal,
    pub height: Decimal,
    pub num_iterations: u32,
}

/// The scalars that a renderer reads for one frame.
#[derive(Clone, Copy, Debug)]
pub struct RenderParams {
    pub num_iterations: u32,
    pub range: Decimal,
    pub aspect_ratio: Option<Decimal>,
    pub pixel_size: Option<Decimal>,
}

/// Width over height.
pub open spec fn aspect_of(v: ViewState) -> Option<Decimal> {
    over(Some(v.width), Some(v.height))
}

/// Plane units per pixel: range over height.
pub open spec fn pixel_size_of(v: ViewState) -> Option<Decimal> {
    over(Some(v.range), Some(v.height))
}

/// Real part of the plane point under pixel column `px`:
/// `(px / width - 1/2) * (range * aspect) + center_re`.
pub open spec fn plane_re(v: ViewState, px: Decimal) -> Option<Decimal> {
    plus(
        times(
            minus(over(Some(px), Some(v.width)), ratio(1, 2)),
            times(Some(v.range), aspect_of(v)),
        ),
        Some(v.center_re),
    )
}

/// Imaginary part of the plane point under pixel row `py`:
/// `(1/2 - py / height) * range + center_im`.
pub open spec fn plane_im(v: ViewState, py: Decimal) -> Option<Decimal> {
    plus(
        times(minus(ratio(1, 2), over(Some(py), Some(v.height))), Some(v.range)),
        Some(v.center_im),
    )
}

/// The view after a zoom by `f` anchored at pixel `(px, py)`: the range is
/// scaled by `f` and the centre moves to `anchor - (anchor - center) * f`.
/// `None` when a result is not finite or the new range is not positive.
pub open spec fn zoomed(v: ViewState, px: Decimal, py: Decimal, f: Decimal) -> Option<ViewState> {
    let ar = plane_re(v, px);
    let ai = plane_im(v, py);
    let range = times(Some(v.range), Some(f));
    let re = minus(ar, times(minus(ar, Some(v.center_re)), Some(f)));
    let im = minus(ai, times(minus(ai, Some(v.center_im)), Some(f)));
    if range is Some && positive(range->0) && re is Some && im is Some {
        Some(ViewState { center_re: re->0, center_im: im->0, range: range->0, ..v })
    } else {
        None
    }
}

/// The view after a drag by `(dx, dy)` pixels:
/// `center_re - (dx / width) * (range * aspect)` and
/// `center_im + (dy / height) * range`. `None` when a result is not finite.
pub open spec fn panned(v: ViewState, dx: Decimal, dy: Decimal) -> Option<ViewState> {
    let re = minus(
        Some(v.center_re),
        times(over(Some(dx), Some(v.width)), times(Some(v.range), aspect_of(v))),
    );
    let im = plus(Some(v.center_im), times(over(Some(dy), Some(v.height)), Some(v.range)));
    if re is Some && im is Some {
        Some(ViewState { center_re: re->0, center_im: im->0, ..v })
    } else {
        None
    }
}

impl ViewState {
    /// Range, width and height positive; at least one iteration.
    pub open spec fn wf(self) -> bool {
        positive(self.range) && positive(self.width) && positive(self.height)
            && self.num_iterations >= 1
    }

    /// A view with the given centre, range, window size and budget; `None`
    /// when the range or a window side is not positive, or the budget is zero.
    pub fn new(
        center_re: Decimal,
        center_im: Decimal,
        range: Decimal,
        width: Decimal,
        height: Decimal,
        num_iterations: u32,
    ) -> (r: Option<ViewState>)
        ensures
            r is Some <==> (positive(range) && positive(width) && positive(height)
                && num_iterations >= 1),
            r is Some ==> r->0 == (ViewState {
                center_re, center_im, range, width, height, num_iterations }),
    {
        if range.is_positive() && width.is_positive() && height.is_positive()
            && num_iterations >= 1 {
            Some(ViewState { center_re, center_im, range, width, height, num_iterations })
        } else {
            None
        }
    }

    /// The starting view: centre `(-1/2, 0)`, range `5/2`, an 800 by 600
    /// window and a budget of 1000 iterations. `None` only when the number
    /// library gives a result for these values that is not finite or not
    /// positive.
    pub fn initial() -> (r: Option<ViewState>)
        ensures
            r is Some <==> (ratio(-1i64, 2) is Some && ratio(5, 2) is Some && integer_of(800) is Some
                && integer_of(600) is Some && positive(ratio(5, 2)->0) && positive(
                integer_of(800)->0,
            ) && positive(integer_of(600)->0)),
            r is Some ==> r->0 == (ViewState {
                center_re: ratio(-1i64, 2)->0,
                center_im: Decimal::spec_zero(),
                range: ratio(5, 2)->0,
                width: integer_of(800)->0,
                height: integer_of(600)->0,
                num_iterations: 1000,
            }),
    {
        match (ratio_num(-1, 2), ratio_num(5, 2), int_num(800), int_num(600)) {
            (Some(re), Some(range), Some(width), Some(height)) => ViewState::new(
                re,
                Decimal::zero(),
                range,
                width,
                height,
                1000,
            ),
            _ => None,
        }
    }

    /// Sets the iteration budget; zero is refused and leaves the view as it is.
    pub fn set_iterations(&mut self, n: u32) -> (r: bool)
        requires
            old(self).wf(),
        ensures
            final(self).wf(),
            r == (n >= 1),
            r ==> *final(self) == (ViewState { num_iterations: n, ..*old(self) }),
            !r ==> *final(self) == *old(self),
    {
        if n >= 1 {
            self.num_iterations = n;
            true
        } else {
            false
        }
    }

    /// Width over height.
    pub fn aspect_ratio(&self) -> (r: Option<Decimal>)
        ensures
            r == aspect_of(*self),
    {
        div_num(&Some(self.width), &Some(self.height))
    }

    /// Plane units per pixel.
    pub fn pixel_size(&self) -> (r: Option<Decimal>)
        ensures
            r == pixel_size_of(*self),
    {
        div_num(&Some(self.range), &Some(self.height))
    }

    /// The plane point under pixel `(px, py)`; pixels outside the window
    /// extrapolate.
    pub fn pixel_to_plane(&self, px: &Decimal, py: &Decimal) -> (r: (
        Option<Decimal>,
        Option<Decimal>,
    ))
        ensures
            r == (plane_re(*self, *px), plane_im(*self, *py)),
    {
        let half = ratio_num(1, 2);
        let scale = mul_num(&Some(self.range), &self.aspect_ratio());
        let u = sub_num(&div_num(&Some(*px), &Some(self.width)), &half);
        let re = add_num(&mul_num(&u, &scale), &Some(self.center_re));
        let w = sub_num(&half, &div_num(&Some(*py), &Some(self.height)));
        let im = add_num(&mul_num(&w, &Some(self.range)), &Some(self.center_im));
        (re, im)
    }

    /// Zooms by `f` keeping the plane point under `cursor` in place. Without
    /// a cursor, or when the new view would not be finite with a positive
    /// range, the view stays as it is. Returns whether it changed.
    pub fn zoom(&mut self, cursor: Option<(Decimal, Decimal)>, f: &Decimal) -> (r: bool)
        requires
            old(self).wf(),
        ensures
            final(self).wf(),
            match cursor {
                None => !r && *final(self) == *old(self),
                Some(p) => match zoomed(*old(self), p.0, p.1, *f) {
                    Some(v) => r && *final(self) == v,
                    None => !r && *final(self) == *old(self),
                },
            },
    {
        let (px, py) = match cursor {
            None => return false,
            Some(p) => p,
        };
        let (ar, ai) = self.pixel_to_plane(&px, &py);
        let fz = Some(*f);
        let range = mul_num(&Some(self.range), &fz);
        let re = sub_num(&ar, &mul_num(&sub_num(&ar, &Some(self.center_re)), &fz));
        let im = sub_num(&ai, &mul_num(&sub_num(&ai, &Some(self.center_im)), &fz));
        match (range, re, im) {
            (Some(range), Some(re), Some(im)) => {
                if range.is_positive() {
                    self.range = range;
                    self.center_re = re;
                    self.center_im = im;
                    true
                } else {
                    false
                }
            },
            _ => false,
        }
    }

    /// Moves the centre by a drag of `(dx, dy)` pixels: dragging right moves
    /// the centre left on the real axis. The view stays as it is when a
    /// result would not be finite. Returns whether it changed.
    pub fn pan(&mut self, dx: &Decimal, dy: &Decimal) -> (r: bool)
        requires
            old(self).wf(),
        ensures
            final(self).wf(),
            match panned(*old(self), *dx, *dy) {
                Some(v) => r && *final(self) == v,
                None => !r && *final(self) == *old(self),
            },
    {
        let scale = mul_num(&Some(self.range), &self.aspect_ratio());
        let re = sub_num(
            &Some(self.center_re),
            &mul_num(&div_num(&Some(*dx), &Some(self.width)), &scale),
        );
        let im = add_num(
            &Some(self.center_im),
            &mul_num(&div_num(&Some(*dy), &Some(self.height)), &Some(self.range)),
        );
        match (re, im) {
            (Some(re), Some(im)) => {
                self.center_re = re;
                self.center_im = im;
                true
            },
            _ => false,
        }
    }

    /// Takes a new window size; a side that is not positive is refused and
    /// the view stays as it is. Returns whether the size was taken.
    pub fn resize(&mut self, width: &Decimal, height: &Decimal) -> (r: bool)
        requires
            old(self).wf(),
        ensures
            final(self).wf(),
            r == (positive(*width) && positive(*height)),
            r ==> *final(self) == (ViewState { width: *width, height: *height, ..*old(self) }),
            !r ==> *final(self) == *old(self),
    {
        if width.is_positive() && height.is_positive() {
            self.width = *width;
            self.height = *height;
            true
        } else {
            false
        }
    }

    /// The scalars that the renderer needs for this view.
    pub fn publish(&self) -> (r: RenderParams)
        ensures
            r == (RenderParams {
                num_iterations: self.num_iterations,
                range: self.range,
                aspect_ratio: aspect_of(*self),
                pixel_size: pixel_size_of(*self),
            }),
    {
        RenderParams {
            num_iterations: self.num_iterations,
            range: self.range,
            aspect_ratio: self.aspect_ratio(),
            pixel_size: self.pixel_size(),
        }
    }
}

} // verus!
