//! Binary logistic regression by iteratively reweighted least squares.
//!
//! The fit is split into a verified decision layer and an unverified
//! numerical kernel. The decision layer owns everything the algorithm
//! decides: validation of the design matrix and the response vector, the
//! intercept-column augmentation and the transpose, the degenerate-label and
//! tolerance checks, and the loop control of the Newton iteration — when to
//! iterate, when convergence has been reached, when a singular weight matrix
//! ends the loop early with the best coefficients so far, and when a singular
//! Hessian aborts the fit. The kernel — matrix products, inversion, the
//! logistic transform — runs outside and reports each step's outcome to the
//! [`IrlsController`], which judges it.
//!
//! Scalars are IEEE-754 double-precision bit patterns held in `u64`; see the
//! [`crate::bits`] module.

use vstd::prelude::*;

use crate::bits::at_least;
use crate::bits::at_least_bits;
use crate::bits::finite_bits;
use crate::bits::is_finite_bits;
use crate::bits::is_one_bits;
use crate::bits::is_positive_finite_bits;
use crate::bits::is_zero_or_one_bits;
use crate::bits::one_bits;
use crate::bits::positive_finite_bits;
use crate::bits::zero_or_one_bits;
use crate::bits::ONE_BITS;
use crate::bits::POS_ZERO_BITS;

verus! {

/// The ways a fit can fail.
#[derive(Clone, Copy, Debug, PartialEq, Eq, Structural)]
pub enum ErrorKind {
    /// The response vector contains an entry other than zero or one, or all
    /// of its entries are identical, which leaves the log-odds starting
    /// guess undefined.
    InvalidResponse,
    /// The number of rows of the design matrix disagrees with the length of
    /// the response vector.
    DimensionMismatch,
    /// The design matrix or the response vector contains a NaN or an
    /// infinite entry.
    NonFiniteInput,
    /// The Newton-step information matrix is not invertible; fatal.
    SingularHessian,
    /// The selected estimation algorithm is not implemented.
    NotImplemented,
    /// The convergence tolerance is not a positive finite value.
    InvalidConfiguration,
    /// The iteration cap was reached before the tolerance was met.
    DidNotConverge,
}

impl ErrorKind {
    /// A short description of the failure.
    pub fn message(&self) -> (r: String)
        ensures
            r@.len() > 0,
    {
        let s = match self {
            ErrorKind::InvalidResponse => "The elements of the response vector should be either 0 or 1.",
            ErrorKind::DimensionMismatch => "The number of rows in the design matrix should match the length of the response vector.",
            ErrorKind::NonFiniteInput => "The input data should be finite.",
            ErrorKind::SingularHessian => "Hessian matrix (X^T W X) is singular (non-invertible).",
            ErrorKind::NotImplemented => "The selected algorithm is not implemented.",
            ErrorKind::InvalidConfiguration => "The tolerance should be a positive finite value.",
            ErrorKind::DidNotConverge => "The iteration cap was reached before convergence.",
        };
        let r = s.to_string();
        proof {
            reveal_strlit("The elements of the response vector should be either 0 or 1.");
            reveal_strlit("The number of rows in the design matrix should match the length of the response vector.");
            reveal_strlit("The input data should be finite.");
            reveal_strlit("Hessian matrix (X^T W X) is singular (non-invertible).");
            reveal_strlit("The selected algorithm is not implemented.");
            reveal_strlit("The iteration cap was reached before convergence.");
            reveal_strlit("The tolerance should be a positive finite value.");
        }
        r
    }
}

/// Algorithm to use for logistic regression.
#[derive(Clone, Copy, Debug, PartialEq, Eq, Structural)]
pub enum LogisticRegressionAlgorithm {
    /// Maximum likelihood estimation through automatic differentiation: a
    /// named variant that is not implemented, and whose selection must
    /// signal exactly that.
    MLE,
    /// Iteratively reweighted least squares: Newton's method applied to the
    /// Bernoulli log-likelihood, re-deriving the working weights each
    /// iteration from the current fitted probabilities.
    IRLS,
}

/// Every response entry encodes exactly zero or one.
pub open spec fn response_valid(y: Seq<u64>) -> bool {
    forall|i: int| 0 <= i < y.len() ==> is_zero_or_one_bits(#[trigger] y[i])
}

/// Every entry of the vector encodes a finite value.
pub open spec fn vec_finite(v: Seq<u64>) -> bool {
    forall|i: int| 0 <= i < v.len() ==> is_finite_bits(#[trigger] v[i])
}

/// Every entry of the matrix encodes a finite value.
pub open spec fn matrix_finite(m: Seq<Seq<u64>>) -> bool {
    forall|i: int| 0 <= i < m.len() ==> vec_finite(#[trigger] m[i])
}

/// How many response entries encode exactly one.
pub open spec fn ones_count(y: Seq<u64>) -> int
    decreases y.len(),
{
    if y.len() == 0 {
        0
    } else {
        ones_count(y.drop_last()) + if is_one_bits(y.last()) {
            1int
        } else {
            0int
        }
    }
}

/// All labels identical: every entry one, or every entry zero (an empty
/// response counts as degenerate too). The empirical log-odds, and with it
/// the starting guess, is undefined on such a response.
pub open spec fn degenerate_response(y: Seq<u64>) -> bool {
    ones_count(y) == 0 || ones_count(y) == y.len()
}

/// The verdict of input validation, in the order the checks run: the
/// response entries first, then the dimensions, then finiteness. `None`
/// means the input passed.
pub open spec fn input_error(x: Seq<Seq<u64>>, y: Seq<u64>) -> Option<ErrorKind> {
    if !response_valid(y) {
        Some(ErrorKind::InvalidResponse)
    } else if x.len() != y.len() {
        Some(ErrorKind::DimensionMismatch)
    } else if !(matrix_finite(x) && vec_finite(y)) {
        Some(ErrorKind::NonFiniteInput)
    } else {
        None
    }
}

/// The verdict of everything checked before the first Newton step: input
/// validation, then the degenerate-label check, then the tolerance, then the
/// algorithm selector. `None` means the iteration may begin.
pub open spec fn fit_error(
    x: Seq<Seq<u64>>,
    y: Seq<u64>,
    method: LogisticRegressionAlgorithm,
    tolerance_bits: u64,
) -> Option<ErrorKind> {
    match input_error(x, y) {
        Some(e) => Some(e),
        None => if degenerate_response(y) {
            Some(ErrorKind::InvalidResponse)
        } else if !is_positive_finite_bits(tolerance_bits) {
            Some(ErrorKind::InvalidConfiguration)
        } else if method is MLE {
            Some(ErrorKind::NotImplemented)
        } else {
            None
        },
    }
}

/// A response vector with an entry other than zero or one is rejected with
/// `InvalidResponse`, whatever the design matrix, the algorithm and the
/// tolerance — and so before any iteration could run.
pub proof fn lemma_invalid_response_rejected(
    x: Seq<Seq<u64>>,
    y: Seq<u64>,
    method: LogisticRegressionAlgorithm,
    tolerance_bits: u64,
)
    requires
        !response_valid(y),
    ensures
        fit_error(x, y, method, tolerance_bits) == Some(ErrorKind::InvalidResponse),
{
}

/// A design matrix whose row count disagrees with the length of a valid
/// response vector is rejected with `DimensionMismatch`, whatever the
/// algorithm and the tolerance.
pub proof fn lemma_dimension_mismatch_rejected(
    x: Seq<Seq<u64>>,
    y: Seq<u64>,
    method: LogisticRegressionAlgorithm,
    tolerance_bits: u64,
)
    requires
        response_valid(y),
        x.len() != y.len(),
    ensures
        fit_error(x, y, method, tolerance_bits) == Some(ErrorKind::DimensionMismatch),
{
}

/// A NaN or infinite entry anywhere in the design matrix is rejected with
/// `NonFiniteInput` once the earlier checks pass. (The response cannot fail
/// the finiteness check at all: by [`lemma_valid_response_is_finite`] its
/// entries are already finite once they encode zero or one.)
pub proof fn lemma_non_finite_rejected(
    x: Seq<Seq<u64>>,
    y: Seq<u64>,
    method: LogisticRegressionAlgorithm,
    tolerance_bits: u64,
)
    requires
        response_valid(y),
        x.len() == y.len(),
        !matrix_finite(x),
    ensures
        fit_error(x, y, method, tolerance_bits) == Some(ErrorKind::NonFiniteInput),
{
}

/// A valid response entry is finite: the two encodings of zero and the one
/// encoding of one all have an unsaturated exponent field.
pub proof fn lemma_valid_response_is_finite(y: Seq<u64>)
    requires
        response_valid(y),
    ensures
        vec_finite(y),
{
    assert forall|i: int| 0 <= i < y.len() implies is_finite_bits(#[trigger] y[i]) by {
        assert(is_zero_or_one_bits(y[i]));
        assert(0u64 & 0x7FF0_0000_0000_0000 != 0x7FF0_0000_0000_0000) by (bit_vector);
        assert(0x8000_0000_0000_0000u64 & 0x7FF0_0000_0000_0000 != 0x7FF0_0000_0000_0000)
            by (bit_vector);
        assert(0x3FF0_0000_0000_0000u64 & 0x7FF0_0000_0000_0000 != 0x7FF0_0000_0000_0000)
            by (bit_vector);
    }
}

/// Checks that every response entry encodes exactly zero or one.
pub fn response_entries_valid(y: &Vec<u64>) -> (r: bool)
    ensures
        r == response_valid(y@),
{
    let n = y.len();
    let mut i: usize = 0;
    while i < n
        invariant
            n == y@.len(),
            i <= n,
            forall|k: int| 0 <= k < i ==> is_zero_or_one_bits(#[trigger] y@[k]),
        decreases n - i,
    {
        if !zero_or_one_bits(y[i]) {
            return false;
        }
        i += 1;
    }
    true
}

/// Checks that every entry of the vector encodes a finite value.
pub fn vec_entries_finite(v: &Vec<u64>) -> (r: bool)
    ensures
        r == vec_finite(v@),
{
    let n = v.len();
    let mut i: usize = 0;
    while i < n
        invariant
            n == v@.len(),
            i <= n,
            forall|k: int| 0 <= k < i ==> is_finite_bits(#[trigger] v@[k]),
        decreases n - i,
    {
        if !finite_bits(v[i]) {
            return false;
        }
        i += 1;
    }
    true
}

/// Counts the response entries that encode exactly one.
pub fn count_one_entries(y: &Vec<u64>) -> (r: usize)
    ensures
        r == ones_count(y@),
{
    let n = y.len();
    let mut c: usize = 0;
    let mut i: usize = 0;
    while i < n
        invariant
            n == y@.len(),
            i <= n,
            c <= i,
            c == ones_count(y@.take(i as int)),
        decreases n - i,
    {
        proof {
            let t = y@.take(i as int + 1);
            assert(t.drop_last() =~= y@.take(i as int));
            assert(t.last() == y@[i as int]);
        }
        if one_bits(y[i]) {
            c += 1;
        }
        i += 1;
    }
    proof {
        assert(y@.take(n as int) =~= y@);
    }
    c
}

/// Copies a vector of bit patterns.
fn copy_bits_vec(v: &Vec<u64>) -> (r: Vec<u64>)
    ensures
        r@ == v@,
{
    let n = v.len();
    let mut out: Vec<u64> = Vec::new();
    let mut i: usize = 0;
    while i < n
        invariant
            n == v@.len(),
            i <= n,
            out@ == v@.take(i as int),
        decreases n - i,
    {
        out.push(v[i]);
        proof {
            assert(out@ =~= v@.take(i as int + 1));
        }
        i += 1;
    }
    proof {
        assert(v@.take(n as int) =~= v@);
    }
    out
}

/// A dense matrix of bit-pattern scalars, stored row by row.
pub struct BitMatrix {
    /// The number of columns; every row has exactly this length.
    pub cols: usize,
    /// The rows.
    pub data: Vec<Vec<u64>>,
}

impl View for BitMatrix {
    type V = Seq<Seq<u64>>;

    open spec fn view(&self) -> Seq<Seq<u64>> {
        Seq::new(self.data@.len(), |i: int| self.data@[i]@)
    }
}

/// The matrix `m` with a column of ones prepended to each row.
pub open spec fn augmented(m: Seq<Seq<u64>>) -> Seq<Seq<u64>> {
    Seq::new(m.len(), |i: int| seq![ONE_BITS] + m[i])
}

/// The transpose of `m`, read as a `rows` by `cols` matrix.
pub open spec fn transposed(m: Seq<Seq<u64>>, rows: nat, cols: nat) -> Seq<Seq<u64>> {
    Seq::new(cols, |j: int| Seq::new(rows, |i: int| m[i][j]))
}

impl BitMatrix {
    /// Well-formed: every row has exactly `cols` entries.
    pub open spec fn wf(&self) -> bool {
        forall|i: int| 0 <= i < self@.len() ==> (#[trigger] self@[i]).len() == self.cols
    }

    /// Builds a matrix from its rows, provided every row has exactly `cols`
    /// entries; reports the first offending row otherwise.
    pub fn from_rows(cols: usize, data: Vec<Vec<u64>>) -> (r: Option<BitMatrix>)
        ensures
            match r {
                Some(m) => {
                    &&& m.wf()
                    &&& m.cols == cols
                    &&& m.data@ == data@
                },
                None => exists|i: int|
                    0 <= i < data@.len() && (#[trigger] data@[i])@.len() != cols,
            },
    {
        let n = data.len();
        let mut i: usize = 0;
        while i < n
            invariant
                n == data@.len(),
                i <= n,
                forall|k: int| 0 <= k < i ==> (#[trigger] data@[k])@.len() == cols,
            decreases n - i,
        {
            if data[i].len() != cols {
                return None;
            }
            i += 1;
        }
        let m = BitMatrix { cols, data };
        assert forall|i: int| 0 <= i < m@.len() implies (#[trigger] m@[i]).len() == m.cols by {
            assert(m@[i] == m.data@[i]@);
        }
        Some(m)
    }

    /// The number of rows.
    pub fn nrows(&self) -> (r: usize)
        ensures
            r == self@.len(),
    {
        self.data.len()
    }

    /// The number of columns.
    pub fn ncols(&self) -> (r: usize)
        ensures
            r == self.cols,
    {
        self.cols
    }

    /// The entry in row `i`, column `j`.
    pub fn entry(&self, i: usize, j: usize) -> (r: u64)
        requires
            self.wf(),
            i < self@.len(),
            j < self.cols,
        ensures
            r == self@[i as int][j as int],
    {
        proof {
            assert(self@[i as int] == self.data@[i as int]@);
        }
        self.data[i][j]
    }

    /// Checks that every entry of the matrix encodes a finite value.
    pub fn all_entries_finite(&self) -> (r: bool)
        ensures
            r == matrix_finite(self@),
    {
        let n = self.data.len();
        let mut i: usize = 0;
        while i < n
            invariant
                n == self@.len(),
                self@.len() == self.data@.len(),
                i <= n,
                forall|k: int| 0 <= k < i ==> vec_finite(#[trigger] self@[k]),
            decreases n - i,
        {
            proof {
                assert(self@[i as int] == self.data@[i as int]@);
            }
            if !vec_entries_finite(&self.data[i]) {
                return false;
            }
            i += 1;
        }
        true
    }

    /// The matrix with an intercept column of ones prepended to each row.
    pub fn augment(&self) -> (r: BitMatrix)
        requires
            self.wf(),
            self.cols < usize::MAX,
        ensures
            r.wf(),
            r.cols == self.cols + 1,
            r@ == augmented(self@),
    {
        let n = self.data.len();
        let mut rows: Vec<Vec<u64>> = Vec::new();
        let mut i: usize = 0;
        while i < n
            invariant
                self.wf(),
                n == self@.len(),
                self@.len() == self.data@.len(),
                i <= n,
                rows@.len() == i,
                forall|k: int| 0 <= k < i ==> (#[trigger] rows@[k])@ == seq![ONE_BITS] + self@[k],
            decreases n - i,
        {
            let src_row = &self.data[i];
            let m = src_row.len();
            proof {
                assert(self@[i as int] == self.data@[i as int]@);
            }
            let mut row: Vec<u64> = Vec::new();
            row.push(ONE_BITS);
            let mut j: usize = 0;
            while j < m
                invariant
                    m == src_row@.len(),
                    j <= m,
                    row@.len() == j + 1,
                    row@[0] == ONE_BITS,
                    forall|t: int| 1 <= t <= j ==> #[trigger] row@[t] == src_row@[t - 1],
                decreases m - j,
            {
                row.push(src_row[j]);
                j += 1;
            }
            proof {
                assert(row@ =~= seq![ONE_BITS] + self@[i as int]);
            }
            rows.push(row);
            i += 1;
        }
        let r = BitMatrix { cols: self.cols + 1, data: rows };
        proof {
            assert forall|k: int| 0 <= k < r@.len() implies (#[trigger] r@[k]).len()
                == r.cols by {
                assert(r@[k] == rows@[k]@);
                assert(self@[k].len() == self.cols);
            }
            assert(r@ =~= augmented(self@)) by {
                assert forall|k: int| 0 <= k < r@.len() implies r@[k] == augmented(self@)[k] by {
                    assert(r@[k] == rows@[k]@);
                }
            }
        }
        r
    }

    /// The transpose of the matrix.
    pub fn transpose(&self) -> (r: BitMatrix)
        requires
            self.wf(),
        ensures
            r.wf(),
            r.cols == self@.len(),
            r@ == transposed(self@, self@.len(), self.cols as nat),
    {
        let n = self.data.len();
        let c = self.cols;
        let mut rows: Vec<Vec<u64>> = Vec::new();
        let mut j: usize = 0;
        while j < c
            invariant
                self.wf(),
                c == self.cols,
                n == self@.len(),
                self@.len() == self.data@.len(),
                j <= c,
                rows@.len() == j,
                forall|t: int| 0 <= t < j ==> (#[trigger] rows@[t])@
                    == Seq::new(n as nat, |i: int| self@[i][t]),
            decreases c - j,
        {
            let mut col: Vec<u64> = Vec::new();
            let mut i: usize = 0;
            while i < n
                invariant
                    self.wf(),
                    c == self.cols,
                    n == self@.len(),
                    self@.len() == self.data@.len(),
                    j < c,
                    i <= n,
                    col@.len() == i,
                    forall|t: int| 0 <= t < i ==> #[trigger] col@[t] == self@[t][j as int],
                decreases n - i,
            {
                proof {
                    assert(self@[i as int] == self.data@[i as int]@);
                    assert(self@[i as int].len() == self.cols);
                }
                col.push(self.data[i][j]);
                i += 1;
            }
            proof {
                assert(col@ =~= Seq::new(n as nat, |i: int| self@[i][j as int]));
            }
            rows.push(col);
            j += 1;
        }
        let r = BitMatrix { cols: n, data: rows };
        proof {
            assert forall|k: int| 0 <= k < r@.len() implies (#[trigger] r@[k]).len()
                == r.cols by {
                assert(r@[k] == rows@[k]@);
            }
            assert(r@ =~= transposed(self@, self@.len(), c as nat)) by {
                assert forall|k: int| 0 <= k < r@.len() implies r@[k]
                    == transposed(self@, self@.len(), c as nat)[k] by {
                    assert(r@[k] == rows@[k]@);
                }
            }
        }
        r
    }
}

/// Builds a vector of `len` copies of `value`.
fn filled_vec(len: usize, value: u64) -> (r: Vec<u64>)
    ensures
        r@ == Seq::new(len as nat, |i: int| value),
{
    let mut out: Vec<u64> = Vec::new();
    let mut i: usize = 0;
    while i < len
        invariant
            i <= len,
            out@.len() == i,
            forall|k: int| 0 <= k < i ==> #[trigger] out@[k] == value,
        decreases len - i,
    {
        out.push(value);
        i += 1;
    }
    proof {
        assert(out@ =~= Seq::new(len as nat, |i: int| value));
    }
    out
}

/// Struct to hold the input data for a logistic regression: the design
/// matrix and the response vector, both as bit-pattern scalars.
pub struct LogisticRegressionInput {
    /// The input data matrix, also known as the design matrix.
    pub x: BitMatrix,
    /// The output data vector, also known as the response vector. The values
    /// of the response vector should encode either 0 or 1.
    pub y: Vec<u64>,
}

/// Struct to hold the output data for a logistic regression.
#[derive(Clone, Debug, PartialEq, Eq)]
pub struct LogisticRegressionOutput {
    /// The coefficients of the logistic regression, as bit-pattern scalars;
    /// the first coefficient is the intercept.
    pub coefficients: Vec<u64>,
    /// Number of iterations required to converge.
    pub iterations: u64,
}

/// What the numerical kernel reports back from one Newton step.
#[derive(Clone, Debug)]
pub enum IrlsStep {
    /// The step went through: the new candidate coefficients.
    Candidate(Vec<u64>),
    /// The diagonal weight matrix was not invertible; the loop ends early
    /// with the best coefficients found so far.
    SingularWeight,
    /// The information matrix was not invertible; the fit fails.
    SingularHessian,
}

/// The verified loop control of the IRLS iteration.
///
/// The controller holds the prepared fit — augmented design matrix, its
/// transpose, the checked response — and the loop state: the current best
/// coefficients, the candidate from the latest step, and the iteration
/// counter. The unverified kernel drives it in a cycle: it measures the
/// distance between candidate and current coefficients and asks [`Self::check`]
/// whether to go on; if so it computes one weighted least-squares step from
/// the current coefficients and hands the outcome to [`Self::absorb`].
pub struct IrlsController {
    /// The augmented design matrix, an intercept column of ones first.
    pub design: BitMatrix,
    /// The transpose of the augmented design matrix.
    pub design_t: BitMatrix,
    /// The validated response vector.
    pub response: Vec<u64>,
    /// The current best coefficients.
    pub current: Vec<u64>,
    /// The candidate coefficients from the latest completed step.
    pub candidate: Vec<u64>,
    /// How many steps have been completed.
    pub iterations: u64,
    /// The cap on completed steps.
    pub max_iterations: u64,
    /// The convergence tolerance, a positive finite bit pattern.
    pub tolerance: u64,
}

impl IrlsController {
    /// The controller's invariant, established by
    /// [`LogisticRegressionInput::fit_start`] and preserved by every method.
    pub open spec fn wf(&self) -> bool {
        &&& self.design.wf()
        &&& self.design_t.wf()
        &&& self.design@.len() == self.response@.len()
        &&& self.design.cols == self.current@.len()
        &&& self.design_t@ == transposed(
            self.design@,
            self.design@.len(),
            self.design.cols as nat,
        )
        &&& self.current@.len() == self.candidate@.len()
        &&& self.iterations <= self.max_iterations
        &&& is_positive_finite_bits(self.tolerance)
    }

    /// The loop-entry decision, given the distance between the candidate and
    /// the current coefficients (a Euclidean norm, so non-negative or NaN).
    ///
    /// Iterate while the distance is at least the tolerance — read off the
    /// bit patterns, exactly as the numeric comparison would come out — and
    /// the iteration cap is not yet reached. A distance below the tolerance
    /// (a NaN distance compares below everything) ends the fit with the
    /// current coefficients and the exact count of completed steps; a cap
    /// hit ends it with [`ErrorKind::DidNotConverge`].
    pub fn check(&self, delta_norm_bits: u64) -> (r: Option<
        Result<LogisticRegressionOutput, ErrorKind>,
    >)
        requires
            self.wf(),
        ensures
            ({
                let go = at_least_bits(delta_norm_bits, self.tolerance);
                match r {
                    None => go && self.iterations < self.max_iterations,
                    Some(verdict) => match verdict {
                        Ok(out) => {
                            &&& !go
                            &&& out.coefficients@ == self.current@
                            &&& out.iterations == self.iterations
                        },
                        Err(e) => {
                            &&& go
                            &&& self.iterations >= self.max_iterations
                            &&& e == ErrorKind::DidNotConverge
                        },
                    },
                }
            }),
    {
        if !at_least(delta_norm_bits, self.tolerance) {
            Some(
                Ok(
                    LogisticRegressionOutput {
                        coefficients: copy_bits_vec(&self.current),
                        iterations: self.iterations,
                    },
                ),
            )
        } else if self.iterations >= self.max_iterations {
            Some(Err(ErrorKind::DidNotConverge))
        } else {
            None
        }
    }

    /// Takes in the outcome of one Newton step.
    ///
    /// A candidate commits the step: the iteration counter grows by exactly
    /// one, the candidate becomes current, and the previous current
    /// coefficients stay around for the next convergence measurement. A
    /// singular weight matrix ends the loop early — a best-effort success
    /// carrying the current coefficients, not an error. A singular Hessian
    /// is fatal.
    pub fn absorb(&mut self, step: IrlsStep) -> (r: Option<
        Result<LogisticRegressionOutput, ErrorKind>,
    >)
        requires
            old(self).wf(),
            old(self).iterations < old(self).max_iterations,
            step matches IrlsStep::Candidate(v) ==> v@.len() == old(self).current@.len(),
        ensures
            final(self).wf(),
            match step {
                IrlsStep::Candidate(v) => {
                    &&& r is None
                    &&& final(self).current@ == v@
                    &&& final(self).candidate@ == old(self).current@
                    &&& final(self).iterations == old(self).iterations + 1
                    &&& final(self).design == old(self).design
                    &&& final(self).design_t == old(self).design_t
                    &&& final(self).response == old(self).response
                    &&& final(self).max_iterations == old(self).max_iterations
                    &&& final(self).tolerance == old(self).tolerance
                },
                IrlsStep::SingularWeight => {
                    &&& *final(self) == *old(self)
                    &&& match r {
                        Some(verdict) => match verdict {
                            Ok(out) => {
                                &&& out.coefficients@ == old(self).current@
                                &&& out.iterations == old(self).iterations
                            },
                            Err(_) => false,
                        },
                        None => false,
                    }
                },
                IrlsStep::SingularHessian => {
                    &&& *final(self) == *old(self)
                    &&& match r {
                        Some(verdict) => verdict matches Err(e) && e == ErrorKind::SingularHessian,
                        None => false,
                    }
                },
            },
    {
        match step {
            IrlsStep::Candidate(v) => {
                core::mem::swap(&mut self.current, &mut self.candidate);
                self.current = v;
                self.iterations = self.iterations + 1;
                None
            },
            IrlsStep::SingularWeight => Some(
                Ok(
                    LogisticRegressionOutput {
                        coefficients: copy_bits_vec(&self.current),
                        iterations: self.iterations,
                    },
                ),
            ),
            IrlsStep::SingularHessian => Some(Err(ErrorKind::SingularHessian)),
        }
    }
}

impl LogisticRegressionInput {
    /// Create a new `LogisticRegressionInput` struct.
    pub fn new(x: BitMatrix, y: Vec<u64>) -> (r: LogisticRegressionInput)
        requires
            x.wf(),
            x@.len() == y@.len(),
        ensures
            r.x == x,
            r.y == y,
    {
        LogisticRegressionInput { x, y }
    }

    /// Function to validate and prepare the input data.
    ///
    /// The checks run in order, failing fast on the first violation: every
    /// response entry encodes zero or one, the row count of the design
    /// matrix matches the response length, every entry is finite. On success
    /// the returned triple is the design matrix with an intercept column of
    /// ones prepended, its transpose, and the response unchanged.
    pub fn prepare_input(&self) -> (r: Result<(BitMatrix, BitMatrix, Vec<u64>), ErrorKind>)
        requires
            self.x.wf(),
            self.x.cols < usize::MAX,
        ensures
            match r {
                Ok(p) => {
                    &&& input_error(self.x@, self.y@) is None
                    &&& p.0.wf()
                    &&& p.0.cols == self.x.cols + 1
                    &&& p.0@ == augmented(self.x@)
                    &&& p.1.wf()
                    &&& p.1.cols == self.x@.len()
                    &&& p.1@ == transposed(
                        augmented(self.x@),
                        self.x@.len(),
                        (self.x.cols + 1) as nat,
                    )
                    &&& p.2@ == self.y@
                },
                Err(e) => input_error(self.x@, self.y@) == Some(e),
            },
    {
        if !response_entries_valid(&self.y) {
            return Err(ErrorKind::InvalidResponse);
        }
        if self.x.nrows() != self.y.len() {
            return Err(ErrorKind::DimensionMismatch);
        }
        if !self.x.all_entries_finite() || !vec_entries_finite(&self.y) {
            return Err(ErrorKind::NonFiniteInput);
        }
        let design = self.x.augment();
        let design_t = design.transpose();
        let response = copy_bits_vec(&self.y);
        Ok((design, design_t, response))
    }

    /// Validates the fit and seeds the iteration.
    ///
    /// After input validation this rejects a response whose labels are all
    /// identical — the empirical log-odds, and with it the starting guess,
    /// is undefined there — then a tolerance that does not encode a positive
    /// finite value, then the unimplemented algorithm selector. What remains
    /// is a controller seeded with every coefficient set to the caller's
    /// starting guess (the empirical log-odds of the response), the
    /// candidate at zero so that the first convergence measurement cannot
    /// pass for any realistic tolerance, and the iteration counter at zero.
    pub fn fit_start(
        &self,
        method: LogisticRegressionAlgorithm,
        tolerance_bits: u64,
        guess_bits: u64,
        max_iterations: u64,
    ) -> (r: Result<IrlsController, ErrorKind>)
        requires
            self.x.wf(),
            self.x.cols < usize::MAX,
        ensures
            match r {
                Ok(c) => {
                    &&& fit_error(self.x@, self.y@, method, tolerance_bits) is None
                    &&& c.wf()
                    &&& c.design@ == augmented(self.x@)
                    &&& c.design.cols == self.x.cols + 1
                    &&& c.design_t@ == transposed(
                        augmented(self.x@),
                        self.x@.len(),
                        (self.x.cols + 1) as nat,
                    )
                    &&& c.response@ == self.y@
                    &&& c.current@ == Seq::new((self.x.cols + 1) as nat, |i: int| guess_bits)
                    &&& c.candidate@ == Seq::new((self.x.cols + 1) as nat, |i: int| POS_ZERO_BITS)
                    &&& c.iterations == 0
                    &&& c.max_iterations == max_iterations
                    &&& c.tolerance == tolerance_bits
                },
                Err(e) => fit_error(self.x@, self.y@, method, tolerance_bits) == Some(e),
            },
    {
        let prepared = self.prepare_input();
        let (design, design_t, response) = match prepared {
            Ok(p) => p,
            Err(e) => {
                return Err(e);
            },
        };
        let ones = count_one_entries(&response);
        if ones == 0 || ones == response.len() {
            return Err(ErrorKind::InvalidResponse);
        }
        if !positive_finite_bits(tolerance_bits) {
            return Err(ErrorKind::InvalidConfiguration);
        }
        match method {
            LogisticRegressionAlgorithm::MLE => Err(ErrorKind::NotImplemented),
            LogisticRegressionAlgorithm::IRLS => {
                let width = design.ncols();
                let current = filled_vec(width, guess_bits);
                let candidate = filled_vec(width, POS_ZERO_BITS);
                let c = IrlsController {
                    design,
                    design_t,
                    response,
                    current,
                    candidate,
                    iterations: 0,
                    max_iterations,
                    tolerance: tolerance_bits,
                };
                Ok(c)
            },
        }
    }
}

} // verus!
