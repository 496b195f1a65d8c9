//! The two operations: rectangle probabilities and critical values.
//!
//! Each operation checks that the shapes of its arguments agree, lays the
//! arguments out as the integration routine reads them, calls the routine
//! once while holding the caller's [`Gate`], and reads what came back. The
//! routine itself is handed in by the caller.

use crate::bounds::{
    decodable,
    encode,
    encode_bounds,
    lemma_encode_decode_round_trip,
    BoundType,
};
use crate::gate::Gate;
use crate::layout::{
    column_major,
    height,
    lemma_column_major_index,
    rectangular,
    width,
    Matrix,
};
use crate::status::{
    crit_outcome,
    dist_outcome,
    interpret_crit,
    interpret_dist,
    MVError,
    MVResult,
    RawOutcome,
};
use vstd::prelude::*;

verus! {

/// The arguments of the distribution routine, in its order and layout.
pub struct DistArgs<'a, T> {
    /// The number of variables.
    pub n: i32,
    /// The covariance matrix, column by column.
    pub covrnc: Vec<T>,
    /// The degrees of freedom; 0 stands for the multivariate normal.
    pub nu: i32,
    /// The number of constraints.
    pub m: i32,
    /// The lower limits, one per constraint.
    pub lower: &'a [T],
    /// The constraint matrix, column by column.
    pub constr: Vec<T>,
    /// The upper limits, one per constraint.
    pub upper: &'a [T],
    /// The codes of the bound kinds, one per constraint.
    pub infin: Vec<i32>,
    /// The shifts, one per constraint.
    pub delta: &'a [T],
    /// The largest number of integrand evaluations allowed.
    pub maxpts: i32,
    /// The absolute tolerance.
    pub abseps: T,
    /// The relative tolerance.
    pub releps: T,
}

/// The arguments of the critical-value routine, in its order and layout.
pub struct CritArgs<'a, T> {
    /// The number of variables.
    pub n: i32,
    /// The covariance matrix, column by column.
    pub covrnc: Vec<T>,
    /// The degrees of freedom; 0 stands for the multivariate normal.
    pub nu: i32,
    /// The number of constraints.
    pub m: i32,
    /// The lower limits, one per constraint.
    pub lower: &'a [T],
    /// The constraint matrix, column by column.
    pub constr: Vec<T>,
    /// The upper limits, one per constraint.
    pub upper: &'a [T],
    /// The codes of the bound kinds, one per constraint.
    pub infin: Vec<i32>,
    /// The probability level aimed at.
    pub alpha: T,
    /// The largest number of integrand evaluations allowed.
    pub maxpts: i32,
    /// The absolute tolerance.
    pub abseps: T,
}

/// Whether the shapes agree: with `m` constraints on `n` variables, the
/// constraint matrix is `m` by `n`, the covariance matrix `n` by `n`, and
/// there are `m` lower limits, upper limits and bound kinds.
pub open spec fn shapes_agree<T>(
    cov: Seq<Seq<T>>,
    lb: Seq<T>,
    ub: Seq<T>,
    types: Seq<BoundType>,
    constraints: Seq<Seq<T>>,
) -> bool {
    &&& height(cov) == width(cov)
    &&& height(cov) == width(constraints)
    &&& lb.len() == height(constraints)
    &&& ub.len() == height(constraints)
    &&& types.len() == height(constraints)
}

/// The numbers of constraints and of variables as the routine is told them,
/// or the reason why it cannot be called.
pub open spec fn dimensions<T>(
    cov: Seq<Seq<T>>,
    lb: Seq<T>,
    ub: Seq<T>,
    types: Seq<BoundType>,
    constraints: Seq<Seq<T>>,
) -> Result<(i32, i32), MVError> {
    if !shapes_agree(cov, lb, ub, types, constraints) {
        Err(MVError::DimensionMismatch)
    } else if height(constraints) > i32::MAX || width(constraints) > i32::MAX {
        Err(MVError::DimensionTooLarge)
    } else {
        Ok((height(constraints) as i32, width(constraints) as i32))
    }
}

/// As [`dimensions`], with one shift per constraint demanded as well.
pub open spec fn dist_dimensions<T>(
    cov: Seq<Seq<T>>,
    lb: Seq<T>,
    ub: Seq<T>,
    types: Seq<BoundType>,
    constraints: Seq<Seq<T>>,
    delta: Seq<T>,
) -> Result<(i32, i32), MVError> {
    if delta.len() != height(constraints) {
        Err(MVError::DimensionMismatch)
    } else {
        dimensions(cov, lb, ub, types, constraints)
    }
}

impl<'a, T> DistArgs<'a, T> {
    /// Whether every buffer has the length that the two dimensions announce
    /// and every bound kind is given by a code: what the routine relies on
    /// when it reads its arguments.
    pub open spec fn well_sized(&self) -> bool {
        &&& self.n >= 1
        &&& self.m >= 1
        &&& self.covrnc@.len() == self.n * self.n
        &&& self.constr@.len() == self.m * self.n
        &&& self.lower@.len() == self.m
        &&& self.upper@.len() == self.m
        &&& self.infin@.len() == self.m
        &&& self.delta@.len() == self.m
        &&& decodable(self.infin@)
    }

    /// Whether these are the arguments that the routine is to get for the
    /// given call of [`mvdist`]: the dimensions, the two matrices column by
    /// column, the bound kinds as codes, and everything else unchanged.
    pub open spec fn marshals(
        &self,
        cov: Seq<Seq<T>>,
        nu: i32,
        lb: Seq<T>,
        ub: Seq<T>,
        types: Seq<BoundType>,
        constraints: Seq<Seq<T>>,
        delta: Seq<T>,
        maxpts: i32,
        abseps: T,
        releps: T,
    ) -> bool {
        &&& dist_dimensions(cov, lb, ub, types, constraints, delta) == Ok::<(i32, i32), MVError>(
            (self.m, self.n),
        )
        &&& self.covrnc@ == column_major(cov)
        &&& self.nu == nu
        &&& self.lower@ == lb
        &&& self.constr@ == column_major(constraints)
        &&& self.upper@ == ub
        &&& self.infin@ == encode(types)
        &&& self.delta@ == delta
        &&& self.maxpts == maxpts
        &&& self.abseps == abseps
        &&& self.releps == releps
    }
}

impl<'a, T> CritArgs<'a, T> {
    /// Whether every buffer has the length that the two dimensions announce
    /// and every bound kind is given by a code: what the routine relies on
    /// when it reads its arguments.
    pub open spec fn well_sized(&self) -> bool {
        &&& self.n >= 1
        &&& self.m >= 1
        &&& self.covrnc@.len() == self.n * self.n
        &&& self.constr@.len() == self.m * self.n
        &&& self.lower@.len() == self.m
        &&& self.upper@.len() == self.m
        &&& self.infin@.len() == self.m
        &&& decodable(self.infin@)
    }

    /// Whether these are the arguments that the routine is to get for the
    /// given call of [`mvcrit`]: the dimensions, the two matrices column by
    /// column, the bound kinds as codes, and everything else unchanged.
    pub open spec fn marshals(
        &self,
        cov: Seq<Seq<T>>,
        nu: i32,
        lb: Seq<T>,
        ub: Seq<T>,
        types: Seq<BoundType>,
        constraints: Seq<Seq<T>>,
        alpha: T,
        maxpts: i32,
        abseps: T,
    ) -> bool {
        &&& dimensions(cov, lb, ub, types, constraints) == Ok::<(i32, i32), MVError>(
            (self.m, self.n),
        )
        &&& self.covrnc@ == column_major(cov)
        &&& self.nu == nu
        &&& self.lower@ == lb
        &&& self.constr@ == column_major(constraints)
        &&& self.upper@ == ub
        &&& self.infin@ == encode(types)
        &&& self.alpha == alpha
        &&& self.maxpts == maxpts
        &&& self.abseps == abseps
    }
}

/// Marshalled arguments of [`mvdist`] are well sized: no buffer is shorter
/// or longer than the dimensions handed over with it say.
pub proof fn lemma_marshalled_dist_args_are_well_sized<T>(
    args: DistArgs<T>,
    cov: Seq<Seq<T>>,
    nu: i32,
    lb: Seq<T>,
    ub: Seq<T>,
    types: Seq<BoundType>,
    constraints: Seq<Seq<T>>,
    delta: Seq<T>,
    maxpts: i32,
    abseps: T,
    releps: T,
)
    requires
        rectangular(cov),
        rectangular(constraints),
        args.marshals(cov, nu, lb, ub, types, constraints, delta, maxpts, abseps, releps),
    ensures
        args.well_sized(),
{
    lemma_column_major_index(cov, 0, 0);
    lemma_column_major_index(constraints, 0, 0);
    lemma_encode_decode_round_trip(types);
}

/// Marshalled arguments of [`mvcrit`] are well sized: no buffer is shorter
/// or longer than the dimensions handed over with it say.
pub proof fn lemma_marshalled_crit_args_are_well_sized<T>(
    args: CritArgs<T>,
    cov: Seq<Seq<T>>,
    nu: i32,
    lb: Seq<T>,
    ub: Seq<T>,
    types: Seq<BoundType>,
    constraints: Seq<Seq<T>>,
    alpha: T,
    maxpts: i32,
    abseps: T,
)
    requires
        rectangular(cov),
        rectangular(constraints),
        args.marshals(cov, nu, lb, ub, types, constraints, alpha, maxpts, abseps),
    ensures
        args.well_sized(),
{
    lemma_column_major_index(cov, 0, 0);
    lemma_column_major_index(constraints, 0, 0);
    lemma_encode_decode_round_trip(types);
}

/// A number of bound kinds other than the number of constraints is a
/// mismatch for both operations, whatever the other arguments are, and
/// leaves no arguments that a routine could be called with.
pub proof fn lemma_bound_kind_count_must_match<T>(
    cov: Seq<Seq<T>>,
    lb: Seq<T>,
    ub: Seq<T>,
    types: Seq<BoundType>,
    constraints: Seq<Seq<T>>,
    delta: Seq<T>,
)
    requires
        types.len() != height(constraints),
    ensures
        dimensions(cov, lb, ub, types, constraints) == Err::<(i32, i32), MVError>(
            MVError::DimensionMismatch,
        ),
        dist_dimensions(cov, lb, ub, types, constraints, delta) == Err::<(i32, i32), MVError>(
            MVError::DimensionMismatch,
        ),
        forall|args: DistArgs<T>, nu: i32, maxpts: i32, abseps: T, releps: T|
            !#[trigger] args.marshals(
                cov,
                nu,
                lb,
                ub,
                types,
                constraints,
                delta,
                maxpts,
                abseps,
                releps,
            ),
        forall|args: CritArgs<T>, nu: i32, alpha: T, maxpts: i32, abseps: T|
            !#[trigger] args.marshals(cov, nu, lb, ub, types, constraints, alpha, maxpts, abseps),
{
}

/// Checks that the shapes agree and gives the numbers of constraints and of
/// variables as the routine is told them.
pub fn check_dimensions<T>(
    cov: &Matrix<T>,
    lb: &[T],
    ub: &[T],
    types: &Vec<BoundType>,
    constraints: &Matrix<T>,
) -> (r: Result<(i32, i32), MVError>)
    ensures
        r == dimensions(cov@, lb@, ub@, types@, constraints@),
        rectangular(cov@),
        rectangular(constraints@),
{
    let m = constraints.rows();
    let n = constraints.cols();
    if cov.rows() != cov.cols() || cov.rows() != n || lb.len() != m || ub.len() != m
        || types.len() != m {
        return Err(MVError::DimensionMismatch);
    }
    if m > i32::MAX as usize || n > i32::MAX as usize {
        return Err(MVError::DimensionTooLarge);
    }
    Ok((m as i32, n as i32))
}

/// The probability of a region under a multivariate normal or Student-t
/// distribution, as `routine` estimates it.
///
/// With `m` constraints on `n` variables, `cov` is the `n` by `n` covariance
/// matrix, `constraints` the `m` by `n` matrix of the linear constraints,
/// and `lb`, `ub`, `types` and `delta` give for each constraint its limits,
/// which of them are active, and its shift. `nu` is the number of degrees of
/// freedom, 0 for the multivariate normal.
///
/// Where the shapes do not agree, the call fails and `routine` is not
/// called: its precondition is demanded of marshalled arguments only, and
/// there are none. Otherwise `routine` is called once, while `gate` is held,
/// on the marshalled arguments, which are well sized, and what it returns
/// is read as [`dist_outcome`] says.
///
/// `routine` must not pass `gate` again: it would wait for itself.
pub fn mvdist<'a, T: Copy, F>(
    gate: &Gate,
    routine: F,
    cov: &Matrix<T>,
    nu: i32,
    lb: &'a [T],
    ub: &'a [T],
    types: &Vec<BoundType>,
    constraints: &Matrix<T>,
    delta: &'a [T],
    maxpts: i32,
    abseps: T,
    releps: T,
) -> (r: Result<MVResult<T>, MVError>) where F: FnOnce(DistArgs<'a, T>) -> RawOutcome<T>
    requires
        forall|args: DistArgs<'a, T>|
            args.marshals(cov@, nu, lb@, ub@, types@, constraints@, delta@, maxpts, abseps, releps)
                && args.well_sized() ==> #[trigger] routine.requires((args,)),
    ensures
        types@.len() != height(constraints@) ==> r == Err::<MVResult<T>, MVError>(
            MVError::DimensionMismatch,
        ),
        match dist_dimensions(cov@, lb@, ub@, types@, constraints@, delta@) {
            Err(e) => r == Err::<MVResult<T>, MVError>(e),
            Ok(_) => exists|args: DistArgs<'a, T>, raw: RawOutcome<T>|
                args.marshals(
                    cov@,
                    nu,
                    lb@,
                    ub@,
                    types@,
                    constraints@,
                    delta@,
                    maxpts,
                    abseps,
                    releps,
                ) && args.well_sized() && #[trigger] routine.ensures((args,), raw) && r
                    == dist_outcome(raw),
        },
{
    if delta.len() != constraints.rows() {
        return Err(MVError::DimensionMismatch);
    }
    let (m, n) = match check_dimensions(cov, lb, ub, types, constraints) {
        Ok(dims) => dims,
        Err(e) => {
            return Err(e);
        },
    };
    let args = DistArgs {
        n,
        covrnc: cov.to_column_major(),
        nu,
        m,
        lower: lb,
        constr: constraints.to_column_major(),
        upper: ub,
        infin: encode_bounds(types),
        delta,
        maxpts,
        abseps,
        releps,
    };
    proof {
        lemma_marshalled_dist_args_are_well_sized(
            args,
            cov@,
            nu,
            lb@,
            ub@,
            types@,
            constraints@,
            delta@,
            maxpts,
            abseps,
            releps,
        );
    }
    let call = move || -> (raw: RawOutcome<T>)
        requires
            routine.requires((args,)),
        ensures
            routine.ensures((args,), raw),
        { routine(args) };
    let raw = gate.with_exclusive_access(call);
    interpret_dist(raw)
}

/// The critical value at which the probability of a region under a
/// multivariate normal or Student-t distribution reaches `alpha`, as
/// `routine` estimates it.
///
/// The arguments are those of [`mvdist`], without shifts and with the
/// probability level `alpha` in place of a relative tolerance.
///
/// Where the shapes do not agree, the call fails and `routine` is not
/// called: its precondition is demanded of marshalled arguments only, and
/// there are none. Otherwise `routine` is called once, while `gate` is held,
/// on the marshalled arguments, which are well sized, and what it returns
/// is read as [`crit_outcome`] says.
///
/// `routine` must not pass `gate` again: it would wait for itself.
pub fn mvcrit<'a, T: Copy, F>(
    gate: &Gate,
    routine: F,
    cov: &Matrix<T>,
    nu: i32,
    lb: &'a [T],
    ub: &'a [T],
    types: &Vec<BoundType>,
    constraints: &Matrix<T>,
    alpha: T,
    maxpts: i32,
    abseps: T,
) -> (r: Result<MVResult<T>, MVError>) where F: FnOnce(CritArgs<'a, T>) -> RawOutcome<T>
    requires
        forall|args: CritArgs<'a, T>|
            args.marshals(cov@, nu, lb@, ub@, types@, constraints@, alpha, maxpts, abseps)
                && args.well_sized() ==> #[trigger] routine.requires((args,)),
    ensures
        types@.len() != height(constraints@) ==> r == Err::<MVResult<T>, MVError>(
            MVError::DimensionMismatch,
        ),
        match dimensions(cov@, lb@, ub@, types@, constraints@) {
            Err(e) => r == Err::<MVResult<T>, MVError>(e),
            Ok(_) => exists|args: CritArgs<'a, T>, raw: RawOutcome<T>|
                args.marshals(cov@, nu, lb@, ub@, types@, constraints@, alpha, maxpts, abseps)
                    && args.well_sized() && #[trigger] routine.ensures((args,), raw) && r
                    == crit_outcome(raw),
        },
{
    let (m, n) = match check_dimensions(cov, lb, ub, types, constraints) {
        Ok(dims) => dims,
        Err(e) => {
            return Err(e);
        },
    };
    let args = CritArgs {
        n,
        covrnc: cov.to_column_major(),
        nu,
        m,
        lower: lb,
        constr: constraints.to_column_major(),
        upper: ub,
        infin: encode_bounds(types),
        alpha,
        maxpts,
        abseps,
    };
    proof {
        lemma_marshalled_crit_args_are_well_sized(
            args,
            cov@,
            nu,
            lb@,
            ub@,
            types@,
            constraints@,
            alpha,
            maxpts,
            abseps,
        );
    }
    let call = move || -> (raw: RawOutcome<T>)
        requires
            routine.requires((args,)),
        ensures
            routine.ensures((args,), raw),
        { routine(args) };
    let raw = gate.with_exclusive_access(call);
    interpret_crit(raw)
}

} // verus!
