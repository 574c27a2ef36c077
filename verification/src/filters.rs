//! Adaptive predictors that consume streamed spike vectors.
//!
//! Vectors are held as the 64-bit bit patterns of IEEE-754 doubles, so the
//! identity predictor and all state bookkeeping are exact here. The
//! least-mean-squares weight arithmetic itself is floating point and runs in
//! the surrounding application; this module owns the filter state, its
//! shape invariants, its zero initialization, and the sliding history
//! window, which constructors establish and every method preserves.

use vstd::prelude::*;

verus! {

/// Capability of an autoregressive adaptive filter: one call takes the
/// current input vector and returns the forecast for the next step.
pub trait FilterAuto where Self: Sized {
    /// Internal consistency of the filter state.
    spec fn wf(&self) -> bool;

    /// Whether the filter accepts input vectors of length `n`.
    spec fn accepts_len(&self, n: nat) -> bool;

    /// The prediction one call returns, as a function of the state and the
    /// input's bit patterns.
    spec fn next_prediction(&self, x: Seq<u64>) -> Seq<u64>;

    /// The state one call leaves behind.
    spec fn next_state(&self, x: Seq<u64>) -> Self;

    /// Consume one input vector and return the next-step forecast.
    fn predict_next(&mut self, x: &Vec<u64>) -> (r: Vec<u64>)
        requires
            old(self).wf(),
            old(self).accepts_len(x@.len()),
        ensures
            r@ == old(self).next_prediction(x@),
            r@.len() == x@.len(),
            *final(self) == old(self).next_state(x@),
            final(self).wf(),
    ;
}

/// Dummy filter that returns the unmodified input as its "prediction".
pub struct FilterAutoEcho {}

impl FilterAuto for FilterAutoEcho {
    open spec fn wf(&self) -> bool {
        true
    }

    open spec fn accepts_len(&self, n: nat) -> bool {
        true
    }

    open spec fn next_prediction(&self, x: Seq<u64>) -> Seq<u64> {
        x
    }

    open spec fn next_state(&self, x: Seq<u64>) -> FilterAutoEcho {
        FilterAutoEcho {  }
    }

    /// The echo filter is stateless and its reply is its input, unchanged.
    fn predict_next(&mut self, x: &Vec<u64>) -> (r: Vec<u64>) {
        let mut out: Vec<u64> = Vec::new();
        let mut i: usize = 0;
        while i < x.len()
            invariant
                i <= x@.len(),
                out@ == x@.take(i as int),
            decreases x@.len() - i,
        {
            out.push(x[i]);
            proof {
                assert(out@ =~= x@.take(i + 1));
            }
            i = i + 1;
        }
        proof {
            assert(out@ =~= x@);
        }
        out
    }
}

/// The echo predictor is the identity and is stateless: every reply equals
/// its own input, the state after a call is the state before it, and no
/// call affects what any later call returns.
pub proof fn lemma_echo_stateless_identity(e: FilterAutoEcho, x: Seq<u64>, y: Seq<u64>)
    ensures
        e.next_prediction(x) == x,
        e.next_state(x) == e,
        e.next_state(x).next_prediction(y) == y,
{
}

/// Stateless identity predictor of the early protocol revision; kept as a
/// baseline beside `FilterAutoEcho`.
pub struct EchoFilter {}

impl EchoFilter {
    /// Return a copy of the input, unchanged.
    pub fn predict_next(&self, x: &Vec<u64>) -> (r: Vec<u64>)
        ensures
            r@ == x@,
    {
        let mut e = FilterAutoEcho {  };
        e.predict_next(x)
    }
}

/// Least-mean-squares filter core: a learning rate and a weight matrix of
/// shape `dim` by `order * dim`, stored row-major. `mu` and the weights are
/// double bit patterns; the weight arithmetic runs outside this crate.
pub struct FilterLMS {
    /// Learning-rate scalar, as a double bit pattern.
    pub mu: u64,
    /// Number of channels: rows of the weight matrix.
    pub dim: u16,
    /// Number of past vectors the regressor spans.
    pub order: u16,
    /// Row-major weight matrix, `dim * (order * dim)` double bit patterns.
    pub wts: Vec<u64>,
}

impl FilterLMS {
    /// Columns of the weight matrix: the flattened regressor's length.
    pub open spec fn cols(&self) -> int {
        self.order * self.dim
    }

    /// The weight matrix holds exactly its fixed shape, which is never
    /// reshaped after construction.
    pub open spec fn wf(&self) -> bool {
        self.wts@.len() == self.dim * self.cols()
    }

    /// A fresh filter: the given shape and rate, every weight the bit
    /// pattern of positive zero.
    pub fn new(dim: u16, order: u16, mu: u64) -> (r: FilterLMS)
        requires
            order * dim <= u16::MAX,
        ensures
            r.wf(),
            r.dim == dim,
            r.order == order,
            r.mu == mu,
            r.wts@ == Seq::new((r.dim * r.cols()) as nat, |i: int| 0u64),
    {
        proof {
            assert((order as int) * (dim as int) <= 65535 * 65535) by (nonlinear_arith)
                requires
                    order <= 65535,
                    dim <= 65535,
            ;
        }
        let cols: usize = (order as usize) * (dim as usize);
        proof {
            assert((dim as int) * (cols as int) <= 65535 * 65535) by (nonlinear_arith)
                requires
                    dim <= 65535,
                    cols <= 65535,
            ;
        }
        let total: usize = (dim as usize) * cols;
        let mut wts: Vec<u64> = Vec::new();
        let mut i: usize = 0;
        while i < total
            invariant
                i <= total,
                wts@.len() == i,
                forall|j: int| 0 <= j < i ==> wts@[j] == 0u64,
            decreases total - i,
        {
            wts.push(0u64);
            i = i + 1;
        }
        let r = FilterLMS { mu, dim, order, wts };
        proof {
            assert(r.wts@ =~= Seq::new((r.dim * r.cols()) as nat, |i: int| 0u64));
        }
        r
    }
}

/// A history window after one new vector arrives: the new vector stands in
/// front, the retained prefix of the old window follows, and the oldest
/// vector — the window's tail — is evicted.
pub open spec fn pushed_history(hist: Seq<u64>, x: Seq<u64>) -> Seq<u64> {
    x + hist.take(hist.len() - x.len())
}

/// Autoregressive LMS filter: the weight core plus a sliding window of the
/// last `order` input vectors, newest first, flattened channel-contiguous.
pub struct FilterAutoLMS {
    /// The weight matrix and learning rate.
    pub flt_lms: FilterLMS,
    /// Flattened history window, `order * dim` double bit patterns.
    pub x_hist: Vec<u64>,
}

impl FilterAutoLMS {
    /// The history window holds exactly `order` vectors of `dim` samples,
    /// over a well-formed weight core.
    pub open spec fn wf(&self) -> bool {
        &&& self.flt_lms.wf()
        &&& self.x_hist@.len() == self.flt_lms.cols()
    }

    /// A fresh filter: zero weights and an all-zero history window.
    pub fn new(dim: u16, order: u16, mu: u64) -> (r: FilterAutoLMS)
        requires
            order * dim <= u16::MAX,
        ensures
            r.wf(),
            r.flt_lms.dim == dim,
            r.flt_lms.order == order,
            r.flt_lms.mu == mu,
            r.flt_lms.wts@ == Seq::new((r.flt_lms.dim * r.flt_lms.cols()) as nat, |i: int| 0u64),
            r.x_hist@ == Seq::new((r.flt_lms.cols()) as nat, |i: int| 0u64),
    {
        let flt_lms = FilterLMS::new(dim, order, mu);
        let cols: usize = (order as usize) * (dim as usize);
        let mut x_hist: Vec<u64> = Vec::new();
        let mut i: usize = 0;
        while i < cols
            invariant
                i <= cols,
                x_hist@.len() == i,
                forall|j: int| 0 <= j < i ==> x_hist@[j] == 0u64,
            decreases cols - i,
        {
            x_hist.push(0u64);
            i = i + 1;
        }
        let r = FilterAutoLMS { flt_lms, x_hist };
        proof {
            assert(r.x_hist@ =~= Seq::new((r.flt_lms.cols()) as nat, |i: int| 0u64));
        }
        r
    }

    /// Slide the current input into the front of the history window,
    /// evicting the oldest retained vector and keeping exactly `order`
    /// vectors. The weight core is untouched.
    pub fn push_history(&mut self, x: &Vec<u64>)
        requires
            old(self).wf(),
            old(self).flt_lms.order >= 1,
            x@.len() == old(self).flt_lms.dim,
        ensures
            final(self).wf(),
            final(self).x_hist@ == pushed_history(old(self).x_hist@, x@),
            final(self).flt_lms == old(self).flt_lms,
    {
        let dim: usize = x.len();
        proof {
            let d = old(self).flt_lms.dim as int;
            let o = old(self).flt_lms.order as int;
            assert(o >= 1 && d >= 0 ==> d <= o * d) by (nonlinear_arith);
        }
        let keep: usize = self.x_hist.len() - dim;
        let mut nh: Vec<u64> = Vec::new();
        let mut i: usize = 0;
        while i < dim
            invariant
                i <= dim,
                dim == x@.len(),
                nh@ == x@.take(i as int),
            decreases dim - i,
        {
            nh.push(x[i]);
            proof {
                assert(nh@ =~= x@.take(i + 1));
            }
            i = i + 1;
        }
        proof {
            assert(nh@ =~= x@);
        }
        let mut j: usize = 0;
        while j < keep
            invariant
                j <= keep,
                keep <= self.x_hist@.len(),
                nh@ == x@ + self.x_hist@.take(j as int),
                self == old(self),
            decreases keep - j,
        {
            nh.push(self.x_hist[j]);
            proof {
                assert(nh@ =~= x@ + self.x_hist@.take(j + 1));
            }
            j = j + 1;
        }
        self.x_hist = nh;
        proof {
            assert(self.x_hist@ =~= pushed_history(old(self).x_hist@, x@));
        }
    }
}

} // verus!
