use vstd::prelude::*;

use crate::decimal::{add_num, int_num, integer_of, minus, mul_num, plus, sub_num, times, Decimal};
use crate::view::ViewState;

verus! {

/// One orbit sample: real and imaginary part, `None` where not finite.
pub type Sample = (Option<Decimal>, Option<Decimal>);

/// One step of the Mandelbrot recurrence, `z^2 + c`, with
/// `(x + yi)^2 = (x^2 - y^2) + 2xyi`.
pub open spec fn orbit_step(z: Sample, c_re: Decimal, c_im: Decimal) -> Sample {
    (
        plus(minus(times(z.0, z.0), times(z.1, z.1)), Some(c_re)),
        plus(times(times(integer_of(2), z.0), z.1), Some(c_im)),
    )
}

/// The reference orbit of `n` steps: `z_0 = 0` and `z_{k+1} = z_k^2 + c`,
/// `n + 1` samples in all.
pub open spec fn orbit(c_re: Decimal, c_im: Decimal, n: nat) -> Seq<Sample>
    decreases n,
{
    if n == 0 {
        seq![(Some(Decimal::spec_zero()), Some(Decimal::spec_zero()))]
    } else {
        let prev = orbit(c_re, c_im, (n - 1) as nat);
        prev.push(orbit_step(prev.last(), c_re, c_im))
    }
}

/// An orbit of `n` steps holds `n + 1` samples.
pub proof fn lemma_orbit_len(c_re: Decimal, c_im: Decimal, n: nat)
    ensures
        orbit(c_re, c_im, n).len() == n + 1,
    decreases n,
{
    if n > 0 {
        lemma_orbit_len(c_re, c_im, (n - 1) as nat);
    }
}

/// Every orbit starts at zero and follows the recurrence from one sample to
/// the next.
pub proof fn lemma_orbit_recurrence(c_re: Decimal, c_im: Decimal, n: nat)
    ensures
        orbit(c_re, c_im, n)[0] == (Some(Decimal::spec_zero()), Some(Decimal::spec_zero())),
        forall|k: int| 0 <= k < n ==> #[trigger] orbit(c_re, c_im, n)[k + 1]
            == orbit_step(orbit(c_re, c_im, n)[k], c_re, c_im),
    decreases n,
{
    lemma_orbit_len(c_re, c_im, n);
    if n > 0 {
        let m = (n - 1) as nat;
        lemma_orbit_recurrence(c_re, c_im, m);
        lemma_orbit_len(c_re, c_im, m);
        assert forall|k: int| 0 <= k < n implies #[trigger] orbit(c_re, c_im, n)[k + 1]
            == orbit_step(orbit(c_re, c_im, n)[k], c_re, c_im) by {
            if k + 1 < n {
                assert(orbit(c_re, c_im, n)[k + 1] == orbit(c_re, c_im, m)[k + 1]);
            }
        }
    }
}

/// The orbit depends on the centre and the budget alone: two runs on the
/// same centre and budget give the same samples.
pub proof fn lemma_orbit_deterministic(
    a_re: Decimal,
    a_im: Decimal,
    b_re: Decimal,
    b_im: Decimal,
    n: nat,
)
    requires
        a_re == b_re,
        a_im == b_im,
    ensures
        orbit(a_re, a_im, n) == orbit(b_re, b_im, n),
{
}

/// Computes the reference orbit of `n` steps around `(c_re, c_im)`, in
/// high precision throughout; there is no stop on escape.
pub fn reference_orbit(c_re: &Decimal, c_im: &Decimal, n: u32) -> (r: Vec<Sample>)
    ensures
        r@ == orbit(*c_re, *c_im, n as nat),
        r@.len() == n + 1,
{
    let two = int_num(2);
    let mut z: Sample = (Some(Decimal::zero()), Some(Decimal::zero()));
    let mut out: Vec<Sample> = Vec::new();
    out.push(z);
    let mut i: u32 = 0;
    proof {
        lemma_orbit_len(*c_re, *c_im, 0);
    }
    while i < n
        invariant
            i <= n,
            two == integer_of(2),
            out@ == orbit(*c_re, *c_im, i as nat),
            out@.len() == i + 1,
            z == out@.last(),
        decreases n - i,
    {
        let x = z.0;
        let y = z.1;
        let re = add_num(&sub_num(&mul_num(&x, &x), &mul_num(&y, &y)), &Some(*c_re));
        let im = add_num(&mul_num(&mul_num(&two, &x), &y), &Some(*c_im));
        z = (re, im);
        out.push(z);
        i = i + 1;
        proof {
            lemma_orbit_len(*c_re, *c_im, i as nat);
        }
    }
    out
}

impl ViewState {
    /// The reference orbit of this view: its centre, its iteration budget.
    pub fn orbit(&self) -> (r: Vec<Sample>)
        ensures
            r@ == orbit(self.center_re, self.center_im, self.num_iterations as nat),
    {
        reference_orbit(&self.center_re, &self.center_im, self.num_iterations)
    }
}

} // verus!
