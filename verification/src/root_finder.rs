//! The safeguarded iteration that refines a volatility: when it goes on,
//! when it falls back on bisection, how its bracket tightens, and how far a
//! step may go.
//!
//! One pass of the refinement is three calls. `RootFinder::begin` decides
//! whether there is another pass and where it evaluates; with the price and
//! the vega at that point `Evaluation::observe` tightens the bracket; and
//! `Evaluation::advance` takes the step. The caller evaluates the price
//! curve and forms the sums and products in between.
use vstd::prelude::*;
use crate::binary64::{Binary64, Value, value_of};
use crate::definitions::{fabs, max, fabs_of, max_of, DBL_MIN};
use crate::solver::Objective;

verus! {

/// Bits of the most negative finite number: the step before there is one,
/// larger in size than any tolerance.
pub const NO_STEP_YET: u64 = 0xFFEF_FFFF_FFFF_FFFF;

/// After this many changes of direction the next pass bisects.
pub const REVERSALS_BEFORE_BISECTION: usize = 3;

/// What the refinement knows between two passes.
#[derive(Clone, Copy, Debug)]
pub struct State {
    /// The passes made so far.
    pub iterations: usize,
    /// The passes that may be made in all.
    pub limit: usize,
    /// The changes of direction since the last bisection.
    pub direction_reversal_count: usize,
    /// The estimate of the volatility.
    pub s: Binary64,
    /// The step that led to the estimate.
    pub ds: Binary64,
    /// The step before that one.
    pub ds_previous: Binary64,
    /// A volatility below the root.
    pub s_left: Binary64,
    /// A volatility above the root.
    pub s_right: Binary64,
}

impl State {
    /// There is budget left, and the last step was larger in size than
    /// `tolerance`, the machine epsilon times the estimate.
    pub open spec fn continues(self, tolerance: Binary64) -> bool {
        self.iterations < self.limit && fabs_of(self.ds)@.gt(tolerance@)
    }

    /// The count of reversals once `product`, the product of the last two
    /// steps, is seen: one more where the product is negative.
    pub open spec fn reversals_after(self, product: Binary64) -> int {
        if product@.lt(value_of(0)) {
            self.direction_reversal_count + 1
        } else {
            self.direction_reversal_count as int
        }
    }

    /// The estimate lies strictly inside the bracket. A NaN does not.
    pub open spec fn estimate_is_inside(self) -> bool {
        self.s@.gt(self.s_left@) && self.s@.lt(self.s_right@)
    }

    /// The pass bisects: not the first pass, and the steps have changed
    /// direction three times, or the estimate has left the open bracket.
    pub open spec fn bisects(self, product: Binary64) -> bool {
        self.iterations > 0 && (self.reversals_after(product) == REVERSALS_BEFORE_BISECTION
            || !self.estimate_is_inside())
    }

    /// The state in which a pass that does not bisect evaluates.
    pub open spec fn kept(self, product: Binary64) -> State {
        State {
            direction_reversal_count: self.reversals_after(product) as usize,
            ds_previous: self.ds,
            ..self
        }
    }

    /// The state in which a pass that bisects evaluates: at the midpoint,
    /// with no step behind it and the count of reversals at zero.
    pub open spec fn bisected(self, midpoint: Binary64) -> State {
        State {
            direction_reversal_count: 0,
            s: midpoint,
            ds: Binary64 { bits: 0 },
            ds_previous: Binary64 { bits: 0 },
            ..self
        }
    }

    /// The state with the bracket tightened by the price `b` at the
    /// estimate: the estimate becomes the right end where the price is
    /// above the target `beta` and the estimate below the right end, and the
    /// left end where the price is below the target and the estimate above
    /// the left end.
    pub open spec fn tightened(self, b: Binary64, beta: Binary64) -> State {
        if b@.gt(beta@) && self.s@.lt(self.s_right@) {
            State { s_right: self.s, ..self }
        } else if b@.lt(beta@) && self.s@.gt(self.s_left@) {
            State { s_left: self.s, ..self }
        } else {
            self
        }
    }

    /// What is decided at the start of a pass. The refinement ends with the
    /// estimate where it does not continue; it ends with the midpoint where
    /// the pass bisects and the bracket's `width` is within the midpoint's
    /// tolerance; otherwise the pass evaluates, from the midpoint where it
    /// bisects and from the estimate where it does not.
    pub open spec fn decision(
        self,
        tolerance: Binary64,
        product: Binary64,
        midpoint: Binary64,
        width: Binary64,
        midpoint_tolerance: Binary64,
    ) -> Decision {
        if !self.continues(tolerance) {
            Decision::Done(Solution { s: self.s, iterations: self.iterations })
        } else if !self.bisects(product) {
            Decision::Evaluate(self.kept(product))
        } else if width@.le(midpoint_tolerance@) {
            Decision::Done(Solution { s: midpoint, iterations: self.iterations })
        } else {
            Decision::Evaluate(self.bisected(midpoint))
        }
    }

    /// The step taken: `proposed`, but no further down than `halving`, which
    /// is minus half the estimate.
    pub open spec fn step_taken(halving: Binary64, proposed: Binary64) -> Binary64 {
        max_of(halving, proposed)
    }

    /// The state after the step: the estimate moved by the step taken, and
    /// one more pass made. `s_halved` and `s_proposed` are the estimate
    /// plus `halving` and plus `proposed`.
    pub open spec fn advanced(
        self,
        halving: Binary64,
        proposed: Binary64,
        s_halved: Binary64,
        s_proposed: Binary64,
    ) -> State {
        State {
            iterations: (self.iterations + 1) as usize,
            s: if halving@.ge(proposed@) {
                s_halved
            } else {
                s_proposed
            },
            ds: Self::step_taken(halving, proposed),
            ..self
        }
    }
}

/// The outcome of a refinement.
#[derive(Clone, Copy, Debug)]
pub struct Solution {
    /// The refined volatility.
    pub s: Binary64,
    /// The passes that it took.
    pub iterations: usize,
}

/// What is decided at the start of a pass, over plain states.
pub enum Decision {
    /// The refinement has ended.
    Done(Solution),
    /// The pass evaluates in this state.
    Evaluate(State),
}

/// A refinement between two passes.
pub struct RootFinder {
    st: State,
}

/// A refinement in the middle of a pass: the point to evaluate is fixed,
/// the step from it is still to be taken.
pub struct Evaluation {
    st: State,
}

/// What `RootFinder::begin` decides.
pub enum Progress {
    /// The refinement has ended.
    Done(Solution),
    /// There is another pass: evaluate the price and the vega at the
    /// estimate of this state.
    Evaluate(Evaluation),
}

impl View for RootFinder {
    type V = State;

    closed spec fn view(&self) -> State {
        self.st
    }
}

impl View for Evaluation {
    type V = State;

    closed spec fn view(&self) -> State {
        self.st
    }
}

impl View for Progress {
    type V = Decision;

    open spec fn view(&self) -> Decision {
        match *self {
            Progress::Done(solution) => Decision::Done(solution),
            Progress::Evaluate(evaluation) => Decision::Evaluate(evaluation@),
        }
    }
}

impl RootFinder {
    #[verifier::type_invariant]
    spec fn inv(self) -> bool {
        &&& self.st.iterations <= self.st.limit
        &&& self.st.direction_reversal_count < REVERSALS_BEFORE_BISECTION
        &&& self.st.iterations == 0 ==> self.st.direction_reversal_count == 0
    }

    /// A refinement that starts from the first guess `s` with the bracket
    /// from `s_left` to `s_right` and a budget of `limit` passes.
    pub fn new(limit: usize, s: Binary64, s_left: Binary64, s_right: Binary64) -> (r: RootFinder)
        ensures
            r@ == (State {
                iterations: 0,
                limit,
                direction_reversal_count: 0,
                s,
                ds: Binary64 { bits: NO_STEP_YET },
                ds_previous: Binary64 { bits: 0 },
                s_left,
                s_right,
            }),
    {
        RootFinder {
            st: State {
                iterations: 0,
                limit,
                direction_reversal_count: 0,
                s,
                ds: Binary64 { bits: NO_STEP_YET },
                ds_previous: Binary64 { bits: 0 },
                s_left,
                s_right,
            },
        }
    }

    /// The state of the refinement.
    pub fn state(&self) -> (st: State)
        ensures
            st == self@,
            st.iterations <= st.limit,
            st.direction_reversal_count < REVERSALS_BEFORE_BISECTION,
            st.iterations == 0 ==> st.direction_reversal_count == 0,
    {
        proof {
            use_type_invariant(self);
        }
        self.st
    }

    /// Decides on the next pass.
    ///
    /// The caller supplies `tolerance`, the machine epsilon times the
    /// estimate; `product`, the product of the last two steps; `midpoint`,
    /// half the sum of the bracket's ends; `width`, the right end less the
    /// left; and `midpoint_tolerance`, the machine epsilon times `midpoint`.
    ///
    /// The refinement ends with the estimate where the budget is spent or
    /// the last step was within the tolerance. It ends with the midpoint
    /// where the pass bisects and the bracket is no wider than the
    /// midpoint's tolerance. Otherwise there is a pass: from the midpoint
    /// where it bisects, from the estimate where it does not. A pass is
    /// only ever begun with budget left.
    pub fn begin(
        self,
        tolerance: Binary64,
        product: Binary64,
        midpoint: Binary64,
        width: Binary64,
        midpoint_tolerance: Binary64,
    ) -> (progress: Progress)
        ensures
            progress@ == self@.decision(tolerance, product, midpoint, width, midpoint_tolerance),
            self@.iterations <= self@.limit,
            progress@ matches Decision::Done(solution) ==> solution.iterations <= self@.limit,
            progress@ matches Decision::Evaluate(st) ==> st.iterations < st.limit
                && st.direction_reversal_count < REVERSALS_BEFORE_BISECTION,
    {
        proof {
            use_type_invariant(&self);
        }
        let mut st = self.st;
        if !(st.iterations < st.limit && fabs(st.ds).gt(tolerance)) {
            return Progress::Done(Solution { s: st.s, iterations: st.iterations });
        }
        if product.lt(Binary64 { bits: 0 }) {
            st.direction_reversal_count = st.direction_reversal_count + 1;
        }
        if st.iterations > 0 && (st.direction_reversal_count == REVERSALS_BEFORE_BISECTION || !(st.s.gt(
            st.s_left,
        ) && st.s.lt(st.s_right))) {
            st.s = midpoint;
            if width.le(midpoint_tolerance) {
                return Progress::Done(Solution { s: st.s, iterations: st.iterations });
            }
            st.direction_reversal_count = 0;
            st.ds = Binary64 { bits: 0 };
        }
        st.ds_previous = st.ds;
        Progress::Evaluate(Evaluation { st })
    }
}

impl Evaluation {
    #[verifier::type_invariant]
    spec fn inv(self) -> bool {
        &&& self.st.iterations < self.st.limit
        &&& self.st.direction_reversal_count < REVERSALS_BEFORE_BISECTION
    }

    /// The state of the pass; the price and the vega are wanted at its
    /// estimate.
    pub fn state(&self) -> (st: State)
        ensures
            st == self@,
            st.iterations < st.limit,
            st.direction_reversal_count < REVERSALS_BEFORE_BISECTION,
    {
        proof {
            use_type_invariant(self);
        }
        self.st
    }

    /// Tightens the bracket with the price `b` at the estimate, against the
    /// target price `beta`. An end of the bracket only ever moves inward,
    /// and only onto the estimate.
    pub fn observe(self, b: Binary64, beta: Binary64) -> (r: Evaluation)
        ensures
            r@ == self@.tightened(b, beta),
            r@.s_left == self@.s_left || (r@.s_left == self@.s && self@.s@.gt(self@.s_left@)),
            r@.s_right == self@.s_right || (r@.s_right == self@.s && self@.s@.lt(self@.s_right@)),
    {
        proof {
            use_type_invariant(&self);
        }
        let mut st = self.st;
        if b.gt(beta) && st.s.lt(st.s_right) {
            st.s_right = st.s;
        } else if b.lt(beta) && st.s.gt(st.s_left) {
            st.s_left = st.s;
        }
        Evaluation { st }
    }

    /// Takes the step and ends the pass.
    ///
    /// The caller supplies `halving`, minus half the estimate; `proposed`,
    /// the step that it computed; and the estimate plus each of the two,
    /// `s_halved` and `s_proposed`. The step taken is `proposed` unless that
    /// goes further down than `halving`: no step more than halves the
    /// estimate.
    pub fn advance(
        self,
        halving: Binary64,
        proposed: Binary64,
        s_halved: Binary64,
        s_proposed: Binary64,
    ) -> (r: RootFinder)
        ensures
            r@ == self@.advanced(halving, proposed, s_halved, s_proposed),
            r@.iterations == self@.iterations + 1,
            r@.iterations <= r@.limit,
            halving@ is Number && proposed@ is Number ==> r@.ds@.ge(halving@),
    {
        proof {
            use_type_invariant(&self);
        }
        let mut st = self.st;
        st.ds = max(halving, proposed);
        st.s = if halving.ge(proposed) {
            s_halved
        } else {
            s_proposed
        };
        st.iterations = st.iterations + 1;
        RootFinder { st }
    }
}

/// Whether the step is a bisection step because a Householder step cannot
/// be formed from the price `b` and the vega `bp`.
///
/// On the lower tail that is so where either is zero or less; on the upper
/// tail where the price has reached the largest price `b_max` or the vega is
/// no more than the smallest normal number. In the middle a Householder
/// step is always taken.
pub open spec fn needs_bisection_step_of(objective: Objective, b: Value, bp: Value, b_max: Value) -> bool {
    match objective {
        Objective::ReciprocalLogarithm => b.le(value_of(0)) || bp.le(value_of(0)),
        Objective::Price => false,
        Objective::LogarithmOfComplement => b.ge(b_max) || bp.le(value_of(DBL_MIN)),
    }
}

/// Decides between a bisection step, from the estimate to the middle of
/// the bracket, and a Householder step for the objective.
pub fn needs_bisection_step(objective: Objective, b: Binary64, bp: Binary64, b_max: Binary64) -> (r: bool)
    ensures
        r == needs_bisection_step_of(objective, b@, bp@, b_max@),
{
    let zero = Binary64 { bits: 0 };
    match objective {
        Objective::ReciprocalLogarithm => b.le(zero) || bp.le(zero),
        Objective::Price => false,
        Objective::LogarithmOfComplement => b.ge(b_max) || bp.le(Binary64 { bits: DBL_MIN }),
    }
}

/// A tolerance that is not a number, as that of an estimate that is not a
/// number, ends the refinement: no step is above it.
pub proof fn lemma_nan_tolerance_ends(
    st: State,
    tolerance: Binary64,
    product: Binary64,
    midpoint: Binary64,
    width: Binary64,
    midpoint_tolerance: Binary64,
)
    requires
        tolerance@ is NaN,
    ensures
        st.decision(tolerance, product, midpoint, width, midpoint_tolerance) == Decision::Done(
            Solution { s: st.s, iterations: st.iterations },
        ),
{
}

/// After the first pass an estimate that is not a number is never
/// evaluated: if the refinement goes on at all, the pass bisects.
pub proof fn lemma_nan_estimate_bisects(st: State, product: Binary64)
    requires
        st.iterations > 0,
        st.s@ is NaN,
    ensures
        st.bisects(product),
{
}

/// Without budget the refinement ends at once, with the first guess.
pub proof fn lemma_no_budget_no_pass(
    st: State,
    tolerance: Binary64,
    product: Binary64,
    midpoint: Binary64,
    width: Binary64,
    midpoint_tolerance: Binary64,
)
    requires
        st.iterations == st.limit,
    ensures
        st.decision(tolerance, product, midpoint, width, midpoint_tolerance) == Decision::Done(
            Solution { s: st.s, iterations: st.iterations },
        ),
{
}

/// Tightening with an estimate inside the bracket leaves a bracket: the
/// left end still below the right end, neither end moved outward, and the
/// estimate within the closed bracket.
pub proof fn lemma_tightening_keeps_bracket(st: State, b: Binary64, beta: Binary64)
    requires
        st.estimate_is_inside(),
    ensures
        st.tightened(b, beta).s_left@.lt(st.tightened(b, beta).s_right@),
        st.tightened(b, beta).s_left@.ge(st.s_left@),
        st.tightened(b, beta).s_right@.le(st.s_right@),
        st.tightened(b, beta).s_left@.le(st.s@),
        st.tightened(b, beta).s_right@.ge(st.s@),
{
}

} // verus!
