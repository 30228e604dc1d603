//! Blend procedures and the shared scalar blend rules.
//!
//! Continuous payloads are fixed-point numbers: an `i64` counts thousandths,
//! so `SCALE` stands for `1.0`.  The scheduler hands every blend a
//! [`Procedure`]: interpolation at a progress (a fraction of `SCALE`),
//! addition, or accumulation with a repetition count.

use vstd::prelude::*;

verus! {

/// The fixed-point unit: the number that stands for `1.0`.
pub const SCALE: i64 = 1000;

/// The progress at which a discrete animation flips from its start value to
/// its end value: one half of `SCALE`.
pub const HALF: i64 = 500;

/// Largest magnitude a payload scalar may carry.  The bound is a machine
/// limit, not a rule of the model: it keeps every blend and every squared
/// distance inside `i64`/`u64` arithmetic.
pub const MAX_MAG: i64 = 0x2000_0000;

/// Largest accumulation count accepted.  A machine limit with the same role
/// as `MAX_MAG`.
pub const MAX_ACCUM: u64 = 0x10_0000;

/// The requested blend operation.
#[derive(Clone, Copy, Debug, PartialEq, Eq, Structural)]
pub enum Procedure {
    /// Interpolate at `progress`, a fraction of `SCALE` in `[0, SCALE]`.
    Interpolate { progress: i64 },
    /// Add the two values.
    Add,
    /// Accumulate: `count` repetitions of the first value, plus the second.
    Accumulate { count: u64 },
}

/// Blends across mismatched filter kinds, or a discrete payload under a
/// procedure other than interpolation, are rejected with this error.
#[derive(Clone, Copy, Debug, PartialEq, Eq, Structural)]
pub struct IncompatibleKinds;

impl Procedure {
    /// A procedure the arithmetic below accepts: progress is a fraction of
    /// `SCALE` and an accumulation count is bounded.
    pub open spec fn wf(self) -> bool {
        match self {
            Procedure::Interpolate { progress } => 0 <= progress <= SCALE,
            Procedure::Add => true,
            Procedure::Accumulate { count } => count <= MAX_ACCUM,
        }
    }

    /// The blend weight of the first operand, as a fraction of `SCALE`.
    pub open spec fn this_weight(self) -> int {
        match self {
            Procedure::Interpolate { progress } => SCALE - progress,
            Procedure::Add => SCALE as int,
            Procedure::Accumulate { count } => count * SCALE,
        }
    }

    /// The blend weight of the second operand, as a fraction of `SCALE`.
    pub open spec fn other_weight(self) -> int {
        match self {
            Procedure::Interpolate { progress } => progress as int,
            Procedure::Add => SCALE as int,
            Procedure::Accumulate { count: _ } => SCALE as int,
        }
    }
}

/// A payload scalar the arithmetic below accepts.
pub open spec fn scalar_wf(x: int) -> bool {
    -MAX_MAG <= x <= MAX_MAG
}

/// Linear interpolation between `a` and `b` at progress `p` (a fraction of
/// `SCALE`), rounding the blended difference toward `a`.
pub open spec fn lerp(a: int, b: int, p: int) -> int {
    if b >= a {
        a + ((b - a) * p) / (SCALE as int)
    } else {
        a - ((a - b) * p) / (SCALE as int)
    }
}

/// What a continuous scalar blends to under each procedure.
pub open spec fn scalar_blend(a: int, b: int, procedure: Procedure) -> int {
    match procedure {
        Procedure::Interpolate { progress } => lerp(a, b, progress as int),
        Procedure::Add => a + b,
        Procedure::Accumulate { count } => a * count + b,
    }
}

/// What a multiplicative factor blends to: the blend is linear around the
/// identity `1.0`, not around zero.
pub open spec fn factor_blend(a: int, b: int, procedure: Procedure) -> int {
    scalar_blend(a - SCALE, b - SCALE, procedure) + SCALE
}

/// The squared distance between two scalars.
pub open spec fn squared_difference(a: int, b: int) -> int {
    (a - b) * (a - b)
}

/// Interpolates between two bounded scalars.  The result stays between the
/// two operands.
fn lerp_exec(a: i64, b: i64, p: i64) -> (r: i64)
    requires
        -MAX_MAG - SCALE <= a <= MAX_MAG + SCALE,
        -MAX_MAG - SCALE <= b <= MAX_MAG + SCALE,
        0 <= p <= SCALE,
    ensures
        r == lerp(a as int, b as int, p as int),
        a <= b ==> a <= r <= b,
        b <= a ==> b <= r <= a,
{
    if b >= a {
        let d: u64 = (b - a) as u64;
        proof {
            assert((d as int) * (p as int) <= (d as int) * (SCALE as int)) by (nonlinear_arith)
                requires 0 <= d as int, 0 <= p as int <= SCALE as int;
            assert(((d as int) * (p as int)) / (SCALE as int) <= ((d as int) * (SCALE as int)) / (
            SCALE as int)) by (nonlinear_arith)
                requires
                    (d as int) * (p as int) <= (d as int) * (SCALE as int),
                    0 <= (d as int) * (p as int),
            ;
            assert(((d as int) * (SCALE as int)) / (SCALE as int) == d as int) by (nonlinear_arith)
                requires 0 <= d as int;
            assert(0 <= ((d as int) * (p as int)) / (SCALE as int)) by (nonlinear_arith)
                requires 0 <= (d as int) * (p as int), 0 < SCALE as int;
        }
        let q: u64 = (d * (p as u64)) / (SCALE as u64);
        a + (q as i64)
    } else {
        let d: u64 = (a - b) as u64;
        proof {
            assert((d as int) * (p as int) <= (d as int) * (SCALE as int)) by (nonlinear_arith)
                requires 0 <= d as int, 0 <= p as int <= SCALE as int;
            assert(((d as int) * (p as int)) / (SCALE as int) <= ((d as int) * (SCALE as int)) / (
            SCALE as int)) by (nonlinear_arith)
                requires
                    (d as int) * (p as int) <= (d as int) * (SCALE as int),
                    0 <= (d as int) * (p as int),
            ;
            assert(((d as int) * (SCALE as int)) / (SCALE as int) == d as int) by (nonlinear_arith)
                requires 0 <= d as int;
            assert(0 <= ((d as int) * (p as int)) / (SCALE as int)) by (nonlinear_arith)
                requires 0 <= (d as int) * (p as int), 0 < SCALE as int;
        }
        let q: u64 = (d * (p as u64)) / (SCALE as u64);
        a - (q as i64)
    }
}

/// Blends a continuous scalar payload.  Shared by every property group whose
/// payload is a plain number or a length.
pub fn animate_scalar(a: i64, b: i64, procedure: Procedure) -> (r: i64)
    requires
        scalar_wf(a as int),
        scalar_wf(b as int),
        procedure.wf(),
    ensures
        r == scalar_blend(a as int, b as int, procedure),
{
    match procedure {
        Procedure::Interpolate { progress } => lerp_exec(a, b, progress),
        Procedure::Add => a + b,
        Procedure::Accumulate { count } => {
            let c: i64 = count as i64;
            proof {
                assert((a as int) * (c as int) <= (MAX_MAG as int) * (MAX_ACCUM as int)
                    && -(MAX_MAG as int) * (MAX_ACCUM as int) <= (a as int) * (c as int))
                    by (nonlinear_arith)
                    requires
                        -(MAX_MAG as int) <= a as int <= MAX_MAG as int,
                        0 <= c as int <= MAX_ACCUM as int,
                ;
            }
            a * c + b
        },
    }
}

/// Blends a multiplicative factor, whose identity is `1.0` rather than zero.
/// Shared by the filter kinds that scale their input.
pub fn animate_multiplicative_factor(a: i64, b: i64, procedure: Procedure) -> (r: i64)
    requires
        scalar_wf(a as int),
        scalar_wf(b as int),
        procedure.wf(),
    ensures
        r == factor_blend(a as int, b as int, procedure),
{
    match procedure {
        Procedure::Interpolate { progress } => {
            let r: i64 = lerp_exec(a - SCALE, b - SCALE, progress);
            r + SCALE
        },
        Procedure::Add => a + b - SCALE,
        Procedure::Accumulate { count } => {
            let c: i64 = count as i64;
            proof {
                assert((a - SCALE) * (c as int) <= (MAX_MAG + SCALE) * (MAX_ACCUM as int)
                    && -(MAX_MAG + SCALE) * (MAX_ACCUM as int) <= (a - SCALE) * (c as int))
                    by (nonlinear_arith)
                    requires
                        -(MAX_MAG as int) - SCALE <= a - SCALE <= (MAX_MAG as int) + SCALE,
                        0 <= c as int <= MAX_ACCUM as int,
                ;
            }
            (a - SCALE) * c + (b - SCALE) + SCALE
        },
    }
}

/// The squared distance between two bounded scalars.
pub fn scalar_squared_distance(a: i64, b: i64) -> (r: u64)
    requires
        scalar_wf(a as int),
        scalar_wf(b as int),
    ensures
        r == squared_difference(a as int, b as int),
        r <= (2 * (MAX_MAG as int)) * (2 * (MAX_MAG as int)),
{
    let d: u64 = if a >= b {
        (a - b) as u64
    } else {
        (b - a) as u64
    };
    proof {
        assert((d as int) * (d as int) <= (2 * (MAX_MAG as int)) * (2 * (MAX_MAG as int)))
            by (nonlinear_arith)
            requires 0 <= d as int <= 2 * (MAX_MAG as int);
        assert((a - b) * (a - b) == (d as int) * (d as int)) by (nonlinear_arith)
            requires d as int == a - b || d as int == b - a;
    }
    d * d
}

/// Blends a discrete payload: under interpolation the value flips from the
/// start to the end at half progress; every other procedure is rejected.
pub fn animate_discrete<T: Copy>(this: &T, other: &T, procedure: Procedure) -> (r: Result<
    T,
    IncompatibleKinds,
>)
    ensures
        r == discrete_blend(*this, *other, procedure),
{
    if let Procedure::Interpolate { progress } = procedure {
        Ok(if progress < HALF {
            *this
        } else {
            *other
        })
    } else {
        Err(IncompatibleKinds)
    }
}

/// What a discrete payload blends to.
pub open spec fn discrete_blend<T>(a: T, b: T, procedure: Procedure) -> Result<
    T,
    IncompatibleKinds,
> {
    match procedure {
        Procedure::Interpolate { progress } => Ok(
            if progress < HALF {
                a
            } else {
                b
            },
        ),
        _ => Err(IncompatibleKinds),
    }
}

/// Self-interpolation identity for scalars: blending a value with itself at
/// any progress gives the value back.
pub proof fn lemma_scalar_self_interpolation(a: int, p: int)
    ensures
        lerp(a, a, p) == a,
{
    assert(((a - a) * p) / (SCALE as int) == 0);
}

/// Interpolation never leaves the interval between its operands, so a
/// bounded scalar interpolates to a bounded scalar.
pub proof fn lemma_lerp_bounds(a: int, b: int, p: int)
    requires
        0 <= p <= SCALE,
    ensures
        a <= b ==> a <= lerp(a, b, p) <= b,
        b <= a ==> b <= lerp(a, b, p) <= a,
{
    if b >= a {
        let d: int = b - a;
        assert(0 <= d * p <= d * SCALE) by (nonlinear_arith)
            requires 0 <= d, 0 <= p <= SCALE;
        assert(0 <= (d * p) / (SCALE as int)) by (nonlinear_arith)
            requires 0 <= d * p;
        assert((d * p) / (SCALE as int) <= (d * SCALE) / (SCALE as int)) by (nonlinear_arith)
            requires d * p <= d * SCALE, 0 <= d * p;
        assert((d * SCALE) / (SCALE as int) == d) by (nonlinear_arith)
            requires 0 <= d;
    } else {
        let d: int = a - b;
        assert(0 <= d * p <= d * SCALE) by (nonlinear_arith)
            requires 0 <= d, 0 <= p <= SCALE;
        assert(0 <= (d * p) / (SCALE as int)) by (nonlinear_arith)
            requires 0 <= d * p;
        assert((d * p) / (SCALE as int) <= (d * SCALE) / (SCALE as int)) by (nonlinear_arith)
            requires d * p <= d * SCALE, 0 <= d * p;
        assert((d * SCALE) / (SCALE as int) == d) by (nonlinear_arith)
            requires 0 <= d;
    }
}

} // verus!
