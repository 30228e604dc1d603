//! The built-in payload types and their animation semantics.
//!
//! Each payload carries plain fixed-point scalars (see [`crate::animate`]) or
//! closed keyword sets, so every blend rule below is stated exactly.

use vstd::prelude::*;
use crate::animate::{
    animate_multiplicative_factor, animate_scalar, factor_blend, scalar_blend,
    scalar_squared_distance, scalar_wf, squared_difference, IncompatibleKinds, Procedure, MAX_MAG,
    SCALE,
};

verus! {

/// The computed value of the `visibility` property.
#[derive(Clone, Copy, Debug, PartialEq, Eq, Structural)]
pub enum Visibility {
    Visible,
    Hidden,
    Collapse,
}

/// The computed value of the `content-visibility` property.
#[derive(Clone, Copy, Debug, PartialEq, Eq, Structural)]
pub enum ContentVisibility {
    Visible,
    Hidden,
    Auto,
}

/// A discrete border-style keyword.
#[derive(Clone, Copy, Debug, PartialEq, Eq, Structural)]
pub enum BorderStyle {
    Solid,
    Dotted,
    Dashed,
    Double,
}

/// The computed value of the `direction` property.
#[derive(Clone, Copy, Debug, PartialEq, Eq, Structural)]
pub enum Direction {
    Ltr,
    Rtl,
}

/// A length, or the `auto` keyword.
#[derive(Clone, Copy, Debug, PartialEq, Eq, Structural)]
pub enum LengthOrAuto {
    Auto,
    Length(i64),
}

/// The computed value of the `clip` property: a rectangle of four
/// length-or-auto edges.
#[derive(Clone, Copy, Debug, PartialEq, Eq, Structural)]
pub struct ClipRect {
    pub top: LengthOrAuto,
    pub right: LengthOrAuto,
    pub bottom: LengthOrAuto,
    pub left: LengthOrAuto,
}

impl Visibility {
    /// What a visibility pair blends to: only interpolation is defined, and
    /// the side that is `Visible` wins whenever its blend weight is positive.
    pub open spec fn blend(self, other: Visibility, procedure: Procedure) -> Result<
        Visibility,
        IncompatibleKinds,
    > {
        match procedure {
            Procedure::Interpolate { .. } => {
                if self == Visibility::Visible {
                    Ok(
                        if procedure.this_weight() > 0 {
                            self
                        } else {
                            other
                        },
                    )
                } else if other == Visibility::Visible {
                    Ok(
                        if procedure.other_weight() > 0 {
                            other
                        } else {
                            self
                        },
                    )
                } else {
                    Err(IncompatibleKinds)
                }
            },
            _ => Err(IncompatibleKinds),
        }
    }

    /// Blends two visibility values.
    pub fn animate(&self, other: &Visibility, procedure: Procedure) -> (r: Result<
        Visibility,
        IncompatibleKinds,
    >)
        ensures
            r == self.blend(*other, procedure),
    {
        match procedure {
            Procedure::Interpolate { progress } => {
                if *self == Visibility::Visible {
                    Ok(
                        if progress < SCALE {
                            *self
                        } else {
                            *other
                        },
                    )
                } else if *other == Visibility::Visible {
                    Ok(
                        if progress > 0 {
                            *other
                        } else {
                            *self
                        },
                    )
                } else {
                    Err(IncompatibleKinds)
                }
            },
            _ => Err(IncompatibleKinds),
        }
    }

    /// The binary discrete metric: zero between equal values, one otherwise.
    pub fn compute_squared_distance(&self, other: &Visibility) -> (r: Result<u64, ()>)
        ensures
            r == Ok::<u64, ()>(
                if *self == *other {
                    0u64
                } else {
                    1u64
                },
            ),
    {
        Ok(
            if *self == *other {
                0
            } else {
                1
            },
        )
    }

    /// Visibility has no additive zero.
    pub fn to_animated_zero(&self) -> (r: Result<Visibility, ()>)
        ensures
            r == Err::<Visibility, ()>(()),
    {
        Err(())
    }
}

impl ContentVisibility {
    /// What a content-visibility pair blends to: the mirror of
    /// [`Visibility::blend`], with `Hidden` as the dominant state.
    pub open spec fn blend(self, other: ContentVisibility, procedure: Procedure) -> Result<
        ContentVisibility,
        IncompatibleKinds,
    > {
        match procedure {
            Procedure::Interpolate { .. } => {
                if self == ContentVisibility::Hidden {
                    Ok(
                        if procedure.other_weight() > 0 {
                            other
                        } else {
                            self
                        },
                    )
                } else if other == ContentVisibility::Hidden {
                    Ok(
                        if procedure.this_weight() > 0 {
                            self
                        } else {
                            other
                        },
                    )
                } else {
                    Err(IncompatibleKinds)
                }
            },
            _ => Err(IncompatibleKinds),
        }
    }

    /// Blends two content-visibility values.
    pub fn animate(&self, other: &ContentVisibility, procedure: Procedure) -> (r: Result<
        ContentVisibility,
        IncompatibleKinds,
    >)
        ensures
            r == self.blend(*other, procedure),
    {
        match procedure {
            Procedure::Interpolate { progress } => {
                if *self == ContentVisibility::Hidden {
                    Ok(
                        if progress > 0 {
                            *other
                        } else {
                            *self
                        },
                    )
                } else if *other == ContentVisibility::Hidden {
                    Ok(
                        if progress < SCALE {
                            *self
                        } else {
                            *other
                        },
                    )
                } else {
                    Err(IncompatibleKinds)
                }
            },
            _ => Err(IncompatibleKinds),
        }
    }

    /// The binary discrete metric: zero between equal values, one otherwise.
    pub fn compute_squared_distance(&self, other: &ContentVisibility) -> (r: Result<u64, ()>)
        ensures
            r == Ok::<u64, ()>(
                if *self == *other {
                    0u64
                } else {
                    1u64
                },
            ),
    {
        Ok(
            if *self == *other {
                0
            } else {
                1
            },
        )
    }

    /// Content-visibility has no additive zero.
    pub fn to_animated_zero(&self) -> (r: Result<ContentVisibility, ()>)
        ensures
            r == Err::<ContentVisibility, ()>(()),
    {
        Err(())
    }
}

impl LengthOrAuto {
    /// A bounded edge value.
    pub open spec fn wf(self) -> bool {
        match self {
            LengthOrAuto::Auto => true,
            LengthOrAuto::Length(v) => scalar_wf(v as int),
        }
    }
}

/// What one clip edge blends to.  Matching lengths blend like any scalar and
/// matching `auto` keeps `auto`; a mixed pair fails.  Under a procedure other
/// than interpolation an edge that resolves to `auto` fails the whole
/// rectangle — a legacy quirk kept for compatibility.
pub open spec fn clip_edge_blend(a: LengthOrAuto, b: LengthOrAuto, procedure: Procedure) -> Result<
    LengthOrAuto,
    IncompatibleKinds,
> {
    match (a, b) {
        (LengthOrAuto::Auto, LengthOrAuto::Auto) => {
            if procedure is Interpolate {
                Ok(LengthOrAuto::Auto)
            } else {
                Err(IncompatibleKinds)
            }
        },
        (LengthOrAuto::Length(x), LengthOrAuto::Length(y)) => Ok(
            LengthOrAuto::Length(scalar_blend(x as int, y as int, procedure) as i64),
        ),
        _ => Err(IncompatibleKinds),
    }
}

/// The squared distance between two clip edges: defined only between two
/// lengths or two `auto` keywords.
pub open spec fn clip_edge_distance(a: LengthOrAuto, b: LengthOrAuto) -> Result<int, ()> {
    match (a, b) {
        (LengthOrAuto::Auto, LengthOrAuto::Auto) => Ok(0),
        (LengthOrAuto::Length(x), LengthOrAuto::Length(y)) => Ok(squared_difference(
            x as int,
            y as int,
        )),
        _ => Err(()),
    }
}

/// The additive zero of a clip edge: a zero length, or `auto` unchanged.
pub open spec fn clip_edge_zero(a: LengthOrAuto) -> LengthOrAuto {
    match a {
        LengthOrAuto::Auto => LengthOrAuto::Auto,
        LengthOrAuto::Length(_) => LengthOrAuto::Length(0),
    }
}

/// A clip edge interpolates to a bounded edge: interpolation never leaves
/// the interval between two bounded lengths, and `auto` stays `auto`.
pub proof fn lemma_clip_edge_interpolate_wf(a: LengthOrAuto, b: LengthOrAuto, progress: i64)
    requires
        a.wf(),
        b.wf(),
        0 <= progress <= SCALE,
    ensures
        clip_edge_blend(a, b, Procedure::Interpolate { progress }) matches Ok(v) ==> v.wf(),
{
    if let (LengthOrAuto::Length(x), LengthOrAuto::Length(y)) = (a, b) {
        crate::animate::lemma_lerp_bounds(x as int, y as int, progress as int);
    }
}

/// Blends one clip edge.
fn animate_clip_edge(a: &LengthOrAuto, b: &LengthOrAuto, procedure: Procedure) -> (r: Result<
    LengthOrAuto,
    IncompatibleKinds,
>)
    requires
        a.wf(),
        b.wf(),
        procedure.wf(),
    ensures
        r == clip_edge_blend(*a, *b, procedure),
{
    match (a, b) {
        (LengthOrAuto::Auto, LengthOrAuto::Auto) => {
            if let Procedure::Interpolate { .. } = procedure {
                Ok(LengthOrAuto::Auto)
            } else {
                Err(IncompatibleKinds)
            }
        },
        (LengthOrAuto::Length(x), LengthOrAuto::Length(y)) => Ok(
            LengthOrAuto::Length(animate_scalar(*x, *y, procedure)),
        ),
        _ => Err(IncompatibleKinds),
    }
}

impl ClipRect {
    /// A rectangle whose edges are all bounded.
    pub open spec fn wf(self) -> bool {
        self.top.wf() && self.right.wf() && self.bottom.wf() && self.left.wf()
    }

    /// What a clip-rectangle pair blends to: each edge independently, and any
    /// failing edge fails the whole rectangle.
    pub open spec fn blend(self, other: ClipRect, procedure: Procedure) -> Result<
        ClipRect,
        IncompatibleKinds,
    > {
        match (
            clip_edge_blend(self.top, other.top, procedure),
            clip_edge_blend(self.right, other.right, procedure),
            clip_edge_blend(self.bottom, other.bottom, procedure),
            clip_edge_blend(self.left, other.left, procedure),
        ) {
            (Ok(top), Ok(right), Ok(bottom), Ok(left)) => Ok(ClipRect { top, right, bottom, left }),
            _ => Err(IncompatibleKinds),
        }
    }

    /// The squared distance between two rectangles: the sum over the edges.
    pub open spec fn distance(self, other: ClipRect) -> Result<int, ()> {
        match (
            clip_edge_distance(self.top, other.top),
            clip_edge_distance(self.right, other.right),
            clip_edge_distance(self.bottom, other.bottom),
            clip_edge_distance(self.left, other.left),
        ) {
            (Ok(t), Ok(r), Ok(b), Ok(l)) => Ok(t + r + b + l),
            _ => Err(()),
        }
    }

    /// The additive zero of a rectangle: each edge zeroed.
    pub open spec fn zero(self) -> ClipRect {
        ClipRect {
            top: clip_edge_zero(self.top),
            right: clip_edge_zero(self.right),
            bottom: clip_edge_zero(self.bottom),
            left: clip_edge_zero(self.left),
        }
    }

    /// Blends two rectangles edge by edge.
    pub fn animate(&self, other: &ClipRect, procedure: Procedure) -> (r: Result<
        ClipRect,
        IncompatibleKinds,
    >)
        requires
            self.wf(),
            other.wf(),
            procedure.wf(),
        ensures
            r == self.blend(*other, procedure),
    {
        let top = match animate_clip_edge(&self.top, &other.top, procedure) {
            Ok(v) => v,
            Err(e) => {
                return Err(e);
            },
        };
        let right = match animate_clip_edge(&self.right, &other.right, procedure) {
            Ok(v) => v,
            Err(e) => {
                return Err(e);
            },
        };
        let bottom = match animate_clip_edge(&self.bottom, &other.bottom, procedure) {
            Ok(v) => v,
            Err(e) => {
                return Err(e);
            },
        };
        let left = match animate_clip_edge(&self.left, &other.left, procedure) {
            Ok(v) => v,
            Err(e) => {
                return Err(e);
            },
        };
        Ok(ClipRect { top, right, bottom, left })
    }

    /// The squared distance between two rectangles.
    pub fn compute_squared_distance(&self, other: &ClipRect) -> (r: Result<u64, ()>)
        requires
            self.wf(),
            other.wf(),
        ensures
            r matches Ok(d) ==> self.distance(*other) == Ok::<int, ()>(d as int),
            r is Err ==> self.distance(*other) is Err,
    {
        match (
            (self.top, other.top),
            (self.right, other.right),
            (self.bottom, other.bottom),
            (self.left, other.left),
        ) {
            (
                (LengthOrAuto::Auto, LengthOrAuto::Auto),
                _,
                _,
                _,
            ) => self.distance_rest(other, 0),
            (
                (LengthOrAuto::Length(x), LengthOrAuto::Length(y)),
                _,
                _,
                _,
            ) => self.distance_rest(other, scalar_squared_distance(x, y)),
            _ => Err(()),
        }
    }

    /// Sums the squared distances of the last three edges onto `acc`.
    fn distance_rest(&self, other: &ClipRect, acc: u64) -> (r: Result<u64, ()>)
        requires
            self.wf(),
            other.wf(),
            clip_edge_distance(self.top, other.top) matches Ok(d) && acc == d,
            acc <= (2 * (MAX_MAG as int)) * (2 * (MAX_MAG as int)),
        ensures
            r matches Ok(d) ==> self.distance(*other) == Ok::<int, ()>(d as int),
            r is Err ==> self.distance(*other) is Err,
    {
        let right: u64 = match (self.right, other.right) {
            (LengthOrAuto::Auto, LengthOrAuto::Auto) => 0,
            (LengthOrAuto::Length(x), LengthOrAuto::Length(y)) => scalar_squared_distance(x, y),
            _ => {
                return Err(());
            },
        };
        let bottom: u64 = match (self.bottom, other.bottom) {
            (LengthOrAuto::Auto, LengthOrAuto::Auto) => 0,
            (LengthOrAuto::Length(x), LengthOrAuto::Length(y)) => scalar_squared_distance(x, y),
            _ => {
                return Err(());
            },
        };
        let left: u64 = match (self.left, other.left) {
            (LengthOrAuto::Auto, LengthOrAuto::Auto) => 0,
            (LengthOrAuto::Length(x), LengthOrAuto::Length(y)) => scalar_squared_distance(x, y),
            _ => {
                return Err(());
            },
        };
        proof {
            assert((2 * (MAX_MAG as int)) * (2 * (MAX_MAG as int)) == 0x1000_0000_0000_0000int)
                by (nonlinear_arith);
        }
        Ok(acc + right + bottom + left)
    }

    /// Returns the rectangle's additive zero; a rectangle always has one.
    pub fn to_animated_zero(&self) -> (r: Result<ClipRect, ()>)
        ensures
            r == Ok::<ClipRect, ()>(self.zero()),
    {
        Ok(
            ClipRect {
                top: clip_edge_zero_exec(&self.top),
                right: clip_edge_zero_exec(&self.right),
                bottom: clip_edge_zero_exec(&self.bottom),
                left: clip_edge_zero_exec(&self.left),
            },
        )
    }
}

/// Zeroes one clip edge.
fn clip_edge_zero_exec(a: &LengthOrAuto) -> (r: LengthOrAuto)
    ensures
        r == clip_edge_zero(*a),
{
    match a {
        LengthOrAuto::Auto => LengthOrAuto::Auto,
        LengthOrAuto::Length(_) => LengthOrAuto::Length(0),
    }
}

/// The payload of an animated `drop-shadow()` filter: two offsets and a blur
/// radius.
#[derive(Clone, Copy, Debug, PartialEq, Eq, Structural)]
pub struct DropShadow {
    pub x: i64,
    pub y: i64,
    pub blur: i64,
}

impl DropShadow {
    /// A bounded shadow.
    pub open spec fn wf(self) -> bool {
        scalar_wf(self.x as int) && scalar_wf(self.y as int) && scalar_wf(self.blur as int)
    }

    /// What a shadow pair blends to: each component like any scalar.
    pub open spec fn blend(self, other: DropShadow, procedure: Procedure) -> DropShadow {
        DropShadow {
            x: scalar_blend(self.x as int, other.x as int, procedure) as i64,
            y: scalar_blend(self.y as int, other.y as int, procedure) as i64,
            blur: scalar_blend(self.blur as int, other.blur as int, procedure) as i64,
        }
    }
}

/// A filter interpolates to a bounded filter: both the plain and the
/// multiplicative blend never leave the interval between their operands.
pub proof fn lemma_filter_interpolate_wf(a: AnimatedFilter, b: AnimatedFilter, progress: i64)
    requires
        a.wf(),
        b.wf(),
        0 <= progress <= SCALE,
    ensures
        a.blend(b, Procedure::Interpolate { progress }) matches Ok(v) ==> v.wf(),
{
    let p: int = progress as int;
    match (a, b) {
        (AnimatedFilter::Blur(x), AnimatedFilter::Blur(y)) => {
            crate::animate::lemma_lerp_bounds(x as int, y as int, p);
        },
        (AnimatedFilter::DropShadow(x), AnimatedFilter::DropShadow(y)) => {
            crate::animate::lemma_lerp_bounds(x.x as int, y.x as int, p);
            crate::animate::lemma_lerp_bounds(x.y as int, y.y as int, p);
            crate::animate::lemma_lerp_bounds(x.blur as int, y.blur as int, p);
        },
        (AnimatedFilter::Grayscale(x), AnimatedFilter::Grayscale(y)) => {
            crate::animate::lemma_lerp_bounds(x as int, y as int, p);
        },
        (AnimatedFilter::HueRotate(x), AnimatedFilter::HueRotate(y)) => {
            crate::animate::lemma_lerp_bounds(x as int, y as int, p);
        },
        (AnimatedFilter::Invert(x), AnimatedFilter::Invert(y)) => {
            crate::animate::lemma_lerp_bounds(x as int, y as int, p);
        },
        (AnimatedFilter::Sepia(x), AnimatedFilter::Sepia(y)) => {
            crate::animate::lemma_lerp_bounds(x as int, y as int, p);
        },
        (AnimatedFilter::Brightness(x), AnimatedFilter::Brightness(y)) => {
            crate::animate::lemma_lerp_bounds(x - SCALE, y - SCALE, p);
        },
        (AnimatedFilter::Contrast(x), AnimatedFilter::Contrast(y)) => {
            crate::animate::lemma_lerp_bounds(x - SCALE, y - SCALE, p);
        },
        (AnimatedFilter::Opacity(x), AnimatedFilter::Opacity(y)) => {
            crate::animate::lemma_lerp_bounds(x - SCALE, y - SCALE, p);
        },
        (AnimatedFilter::Saturate(x), AnimatedFilter::Saturate(y)) => {
            crate::animate::lemma_lerp_bounds(x - SCALE, y - SCALE, p);
        },
        _ => {},
    }
}

/// One animated filter function, over a closed kind set.
#[derive(Clone, Copy, Debug, PartialEq, Eq, Structural)]
pub enum AnimatedFilter {
    Blur(i64),
    DropShadow(DropShadow),
    Grayscale(i64),
    HueRotate(i64),
    Invert(i64),
    Sepia(i64),
    Brightness(i64),
    Contrast(i64),
    Opacity(i64),
    Saturate(i64),
}

impl AnimatedFilter {
    /// A bounded filter payload.
    pub open spec fn wf(self) -> bool {
        match self {
            AnimatedFilter::Blur(v) => scalar_wf(v as int),
            AnimatedFilter::DropShadow(s) => s.wf(),
            AnimatedFilter::Grayscale(v) => scalar_wf(v as int),
            AnimatedFilter::HueRotate(v) => scalar_wf(v as int),
            AnimatedFilter::Invert(v) => scalar_wf(v as int),
            AnimatedFilter::Sepia(v) => scalar_wf(v as int),
            AnimatedFilter::Brightness(v) => scalar_wf(v as int),
            AnimatedFilter::Contrast(v) => scalar_wf(v as int),
            AnimatedFilter::Opacity(v) => scalar_wf(v as int),
            AnimatedFilter::Saturate(v) => scalar_wf(v as int),
        }
    }

    /// What a filter pair blends to.  Mismatched kinds fail.  The first six
    /// kinds delegate to their inner payload's own blend; the last four are
    /// multiplicative factors whose identity is `1.0`.
    pub open spec fn blend(self, other: AnimatedFilter, procedure: Procedure) -> Result<
        AnimatedFilter,
        IncompatibleKinds,
    > {
        match (self, other) {
            (AnimatedFilter::Blur(a), AnimatedFilter::Blur(b)) => Ok(
                AnimatedFilter::Blur(scalar_blend(a as int, b as int, procedure) as i64),
            ),
            (AnimatedFilter::DropShadow(a), AnimatedFilter::DropShadow(b)) => Ok(
                AnimatedFilter::DropShadow(a.blend(b, procedure)),
            ),
            (AnimatedFilter::Grayscale(a), AnimatedFilter::Grayscale(b)) => Ok(
                AnimatedFilter::Grayscale(scalar_blend(a as int, b as int, procedure) as i64),
            ),
            (AnimatedFilter::HueRotate(a), AnimatedFilter::HueRotate(b)) => Ok(
                AnimatedFilter::HueRotate(scalar_blend(a as int, b as int, procedure) as i64),
            ),
            (AnimatedFilter::Invert(a), AnimatedFilter::Invert(b)) => Ok(
                AnimatedFilter::Invert(scalar_blend(a as int, b as int, procedure) as i64),
            ),
            (AnimatedFilter::Sepia(a), AnimatedFilter::Sepia(b)) => Ok(
                AnimatedFilter::Sepia(scalar_blend(a as int, b as int, procedure) as i64),
            ),
            (AnimatedFilter::Brightness(a), AnimatedFilter::Brightness(b)) => Ok(
                AnimatedFilter::Brightness(factor_blend(a as int, b as int, procedure) as i64),
            ),
            (AnimatedFilter::Contrast(a), AnimatedFilter::Contrast(b)) => Ok(
                AnimatedFilter::Contrast(factor_blend(a as int, b as int, procedure) as i64),
            ),
            (AnimatedFilter::Opacity(a), AnimatedFilter::Opacity(b)) => Ok(
                AnimatedFilter::Opacity(factor_blend(a as int, b as int, procedure) as i64),
            ),
            (AnimatedFilter::Saturate(a), AnimatedFilter::Saturate(b)) => Ok(
                AnimatedFilter::Saturate(factor_blend(a as int, b as int, procedure) as i64),
            ),
            _ => Err(IncompatibleKinds),
        }
    }

    /// Each kind's identity for additive composition: the additive-zero inner
    /// value for the first six kinds, and `1.0` for the multiplicative four.
    pub open spec fn zero(self) -> AnimatedFilter {
        match self {
            AnimatedFilter::Blur(_) => AnimatedFilter::Blur(0),
            AnimatedFilter::DropShadow(_) => AnimatedFilter::DropShadow(
                DropShadow { x: 0, y: 0, blur: 0 },
            ),
            AnimatedFilter::Grayscale(_) => AnimatedFilter::Grayscale(0),
            AnimatedFilter::HueRotate(_) => AnimatedFilter::HueRotate(0),
            AnimatedFilter::Invert(_) => AnimatedFilter::Invert(0),
            AnimatedFilter::Sepia(_) => AnimatedFilter::Sepia(0),
            AnimatedFilter::Brightness(_) => AnimatedFilter::Brightness(SCALE),
            AnimatedFilter::Contrast(_) => AnimatedFilter::Contrast(SCALE),
            AnimatedFilter::Opacity(_) => AnimatedFilter::Opacity(SCALE),
            AnimatedFilter::Saturate(_) => AnimatedFilter::Saturate(SCALE),
        }
    }

    /// Blends two filters of matching kind; mismatched kinds fail.
    pub fn animate(&self, other: &AnimatedFilter, procedure: Procedure) -> (r: Result<
        AnimatedFilter,
        IncompatibleKinds,
    >)
        requires
            self.wf(),
            other.wf(),
            procedure.wf(),
        ensures
            r == self.blend(*other, procedure),
            procedure is Interpolate ==> (r matches Ok(v) ==> v.wf()),
    {
        proof {
            if let Procedure::Interpolate { progress } = procedure {
                lemma_filter_interpolate_wf(*self, *other, progress);
            }
        }
        match (self, other) {
            (AnimatedFilter::Blur(a), AnimatedFilter::Blur(b)) => Ok(
                AnimatedFilter::Blur(animate_scalar(*a, *b, procedure)),
            ),
            (AnimatedFilter::DropShadow(a), AnimatedFilter::DropShadow(b)) => Ok(
                AnimatedFilter::DropShadow(
                    DropShadow {
                        x: animate_scalar(a.x, b.x, procedure),
                        y: animate_scalar(a.y, b.y, procedure),
                        blur: animate_scalar(a.blur, b.blur, procedure),
                    },
                ),
            ),
            (AnimatedFilter::Grayscale(a), AnimatedFilter::Grayscale(b)) => Ok(
                AnimatedFilter::Grayscale(animate_scalar(*a, *b, procedure)),
            ),
            (AnimatedFilter::HueRotate(a), AnimatedFilter::HueRotate(b)) => Ok(
                AnimatedFilter::HueRotate(animate_scalar(*a, *b, procedure)),
            ),
            (AnimatedFilter::Invert(a), AnimatedFilter::Invert(b)) => Ok(
                AnimatedFilter::Invert(animate_scalar(*a, *b, procedure)),
            ),
            (AnimatedFilter::Sepia(a), AnimatedFilter::Sepia(b)) => Ok(
                AnimatedFilter::Sepia(animate_scalar(*a, *b, procedure)),
            ),
            (AnimatedFilter::Brightness(a), AnimatedFilter::Brightness(b)) => Ok(
                AnimatedFilter::Brightness(animate_multiplicative_factor(*a, *b, procedure)),
            ),
            (AnimatedFilter::Contrast(a), AnimatedFilter::Contrast(b)) => Ok(
                AnimatedFilter::Contrast(animate_multiplicative_factor(*a, *b, procedure)),
            ),
            (AnimatedFilter::Opacity(a), AnimatedFilter::Opacity(b)) => Ok(
                AnimatedFilter::Opacity(animate_multiplicative_factor(*a, *b, procedure)),
            ),
            (AnimatedFilter::Saturate(a), AnimatedFilter::Saturate(b)) => Ok(
                AnimatedFilter::Saturate(animate_multiplicative_factor(*a, *b, procedure)),
            ),
            _ => Err(IncompatibleKinds),
        }
    }

    /// Returns the filter's identity for additive composition; every kind in
    /// the closed set has one.
    pub fn to_animated_zero(&self) -> (r: Result<AnimatedFilter, ()>)
        ensures
            r == Ok::<AnimatedFilter, ()>(self.zero()),
    {
        match self {
            AnimatedFilter::Blur(_) => Ok(AnimatedFilter::Blur(0)),
            AnimatedFilter::DropShadow(_) => Ok(
                AnimatedFilter::DropShadow(DropShadow { x: 0, y: 0, blur: 0 }),
            ),
            AnimatedFilter::Grayscale(_) => Ok(AnimatedFilter::Grayscale(0)),
            AnimatedFilter::HueRotate(_) => Ok(AnimatedFilter::HueRotate(0)),
            AnimatedFilter::Invert(_) => Ok(AnimatedFilter::Invert(0)),
            AnimatedFilter::Sepia(_) => Ok(AnimatedFilter::Sepia(0)),
            AnimatedFilter::Brightness(_) => Ok(AnimatedFilter::Brightness(SCALE)),
            AnimatedFilter::Contrast(_) => Ok(AnimatedFilter::Contrast(SCALE)),
            AnimatedFilter::Opacity(_) => Ok(AnimatedFilter::Opacity(SCALE)),
            AnimatedFilter::Saturate(_) => Ok(AnimatedFilter::Saturate(SCALE)),
        }
    }
}

} // verus!
