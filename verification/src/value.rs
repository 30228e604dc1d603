//! The animated value: one variant per animatable, non-logical longhand.
//!
//! The tag of a value always equals the identity of the property it stands
//! for, and a property excluded from animation has no constructible variant,
//! so reaching one is impossible rather than a run-time error.
//! The operations dispatch per property group and must only ever be called
//! on two values of the same property: calling them across properties is a
//! scheduler-side invariant violation, ruled out here by precondition.

use vstd::prelude::*;
use vstd::pervasive::unreached;
use crate::animate::{
    animate_discrete, animate_scalar, discrete_blend, scalar_blend, scalar_squared_distance,
    scalar_wf, squared_difference, IncompatibleKinds, Procedure, HALF, SCALE,
};
use crate::catalog::{Atom, LonghandId, OwnedPropertyDeclarationId, VariableValue};
use crate::payloads::{BorderStyle, ClipRect, ContentVisibility, Visibility};

verus! {

/// The animated form of a custom property: its interned name and the token
/// stream it currently holds.
#[derive(Clone, Copy, Debug, PartialEq, Eq, Structural)]
pub struct CustomAnimatedValue {
    pub name: Atom,
    pub value: VariableValue,
}

/// A single computed value belonging to an animated property, in the form
/// the blend operations consume.  Only animatable, non-logical longhands
/// appear, plus one dynamic variant for custom properties.  Every payload is
/// plainly copyable, so duplicating a value is one bulk copy (`Copy`) rather
/// than one branch per variant.
#[derive(Clone, Copy, Debug, PartialEq, Eq, Structural)]
pub enum AnimationValue {
    /// `opacity`
    Opacity(i64),
    /// `border-top-width`
    BorderTopWidth(i64),
    /// `border-right-width`
    BorderRightWidth(i64),
    /// `border-bottom-width`
    BorderBottomWidth(i64),
    /// `border-left-width`
    BorderLeftWidth(i64),
    /// `font-size`
    FontSize(i64),
    /// `clip`
    Clip(ClipRect),
    /// `visibility`
    Visibility(Visibility),
    /// `content-visibility`
    ContentVisibility(ContentVisibility),
    /// `border-top-style`
    BorderTopStyle(BorderStyle),
    /// A custom property.
    Custom(CustomAnimatedValue),
}

impl AnimationValue {
    /// The identity of the property the value belongs to.
    pub open spec fn id_spec(self) -> OwnedPropertyDeclarationId {
        match self {
            AnimationValue::Opacity(_) => OwnedPropertyDeclarationId::Longhand(LonghandId::Opacity),
            AnimationValue::BorderTopWidth(_) => OwnedPropertyDeclarationId::Longhand(
                LonghandId::BorderTopWidth,
            ),
            AnimationValue::BorderRightWidth(_) => OwnedPropertyDeclarationId::Longhand(
                LonghandId::BorderRightWidth,
            ),
            AnimationValue::BorderBottomWidth(_) => OwnedPropertyDeclarationId::Longhand(
                LonghandId::BorderBottomWidth,
            ),
            AnimationValue::BorderLeftWidth(_) => OwnedPropertyDeclarationId::Longhand(
                LonghandId::BorderLeftWidth,
            ),
            AnimationValue::FontSize(_) => OwnedPropertyDeclarationId::Longhand(
                LonghandId::FontSize,
            ),
            AnimationValue::Clip(_) => OwnedPropertyDeclarationId::Longhand(LonghandId::Clip),
            AnimationValue::Visibility(_) => OwnedPropertyDeclarationId::Longhand(
                LonghandId::Visibility,
            ),
            AnimationValue::ContentVisibility(_) => OwnedPropertyDeclarationId::Longhand(
                LonghandId::ContentVisibility,
            ),
            AnimationValue::BorderTopStyle(_) => OwnedPropertyDeclarationId::Longhand(
                LonghandId::BorderTopStyle,
            ),
            AnimationValue::Custom(v) => OwnedPropertyDeclarationId::Custom(v.name),
        }
    }

    /// A bounded value: every scalar payload is inside the fixed-point range
    /// the arithmetic accepts.
    pub open spec fn wf(self) -> bool {
        match self {
            AnimationValue::Opacity(v) => scalar_wf(v as int),
            AnimationValue::BorderTopWidth(v) => scalar_wf(v as int),
            AnimationValue::BorderRightWidth(v) => scalar_wf(v as int),
            AnimationValue::BorderBottomWidth(v) => scalar_wf(v as int),
            AnimationValue::BorderLeftWidth(v) => scalar_wf(v as int),
            AnimationValue::FontSize(v) => scalar_wf(v as int),
            AnimationValue::Clip(r) => r.wf(),
            AnimationValue::Visibility(_) => true,
            AnimationValue::ContentVisibility(_) => true,
            AnimationValue::BorderTopStyle(_) => true,
            AnimationValue::Custom(_) => true,
        }
    }

    /// Whether two values belong to the same property, so that the blend
    /// operations are defined on the pair.
    pub open spec fn same_property(self, other: AnimationValue) -> bool {
        self.id_spec() == other.id_spec()
    }

    /// Whether the property the value stands for animates discretely: either
    /// a discrete catalog longhand or a custom property.
    pub open spec fn is_discrete_kind(self) -> bool {
        self is BorderTopStyle || self is Custom
    }

    /// Equality of two animated values: equal tags and equal payload, the
    /// payload compared by the owning group's shared comparison.
    pub open spec fn eq_spec(self, other: AnimationValue) -> bool {
        match (self, other) {
            (AnimationValue::Opacity(a), AnimationValue::Opacity(b)) => a == b,
            (AnimationValue::BorderTopWidth(a), AnimationValue::BorderTopWidth(b)) => a == b,
            (AnimationValue::BorderRightWidth(a), AnimationValue::BorderRightWidth(b)) => a == b,
            (AnimationValue::BorderBottomWidth(a), AnimationValue::BorderBottomWidth(b)) => a == b,
            (AnimationValue::BorderLeftWidth(a), AnimationValue::BorderLeftWidth(b)) => a == b,
            (AnimationValue::FontSize(a), AnimationValue::FontSize(b)) => a == b,
            (AnimationValue::Clip(a), AnimationValue::Clip(b)) => a == b,
            (AnimationValue::Visibility(a), AnimationValue::Visibility(b)) => a == b,
            (AnimationValue::ContentVisibility(a), AnimationValue::ContentVisibility(b)) => a == b,
            (AnimationValue::BorderTopStyle(a), AnimationValue::BorderTopStyle(b)) => a == b,
            (AnimationValue::Custom(a), AnimationValue::Custom(b)) => a == b,
            _ => false,
        }
    }

    /// What a pair of values blends to under a procedure.  Discrete-kind
    /// payloads flip at half progress; continuous payloads delegate to their
    /// group's blend rule.
    pub open spec fn blend(self, other: AnimationValue, procedure: Procedure) -> Result<
        AnimationValue,
        IncompatibleKinds,
    > {
        match (self, other) {
            (AnimationValue::Opacity(a), AnimationValue::Opacity(b)) => Ok(
                AnimationValue::Opacity(scalar_blend(a as int, b as int, procedure) as i64),
            ),
            (AnimationValue::BorderTopWidth(a), AnimationValue::BorderTopWidth(b)) => Ok(
                AnimationValue::BorderTopWidth(scalar_blend(a as int, b as int, procedure) as i64),
            ),
            (AnimationValue::BorderRightWidth(a), AnimationValue::BorderRightWidth(b)) => Ok(
                AnimationValue::BorderRightWidth(
                    scalar_blend(a as int, b as int, procedure) as i64,
                ),
            ),
            (AnimationValue::BorderBottomWidth(a), AnimationValue::BorderBottomWidth(b)) => Ok(
                AnimationValue::BorderBottomWidth(
                    scalar_blend(a as int, b as int, procedure) as i64,
                ),
            ),
            (AnimationValue::BorderLeftWidth(a), AnimationValue::BorderLeftWidth(b)) => Ok(
                AnimationValue::BorderLeftWidth(scalar_blend(a as int, b as int, procedure) as i64),
            ),
            (AnimationValue::FontSize(a), AnimationValue::FontSize(b)) => Ok(
                AnimationValue::FontSize(scalar_blend(a as int, b as int, procedure) as i64),
            ),
            (AnimationValue::Clip(a), AnimationValue::Clip(b)) => match a.blend(b, procedure) {
                Ok(r) => Ok(AnimationValue::Clip(r)),
                Err(e) => Err(e),
            },
            (AnimationValue::Visibility(a), AnimationValue::Visibility(b)) => match a.blend(
                b,
                procedure,
            ) {
                Ok(r) => Ok(AnimationValue::Visibility(r)),
                Err(e) => Err(e),
            },
            (AnimationValue::ContentVisibility(a), AnimationValue::ContentVisibility(b)) => match a
                .blend(b, procedure) {
                Ok(r) => Ok(AnimationValue::ContentVisibility(r)),
                Err(e) => Err(e),
            },
            (AnimationValue::BorderTopStyle(a), AnimationValue::BorderTopStyle(b)) => match
                discrete_blend(a, b, procedure) {
                Ok(r) => Ok(AnimationValue::BorderTopStyle(r)),
                Err(e) => Err(e),
            },
            (AnimationValue::Custom(a), AnimationValue::Custom(b)) => match discrete_blend(
                a,
                b,
                procedure,
            ) {
                Ok(r) => Ok(AnimationValue::Custom(r)),
                Err(e) => Err(e),
            },
            _ => Err(IncompatibleKinds),
        }
    }

    /// The squared distance between two values of one property: defined for
    /// the continuous groups, undefined for discrete payloads and for custom
    /// properties.
    pub open spec fn distance(self, other: AnimationValue) -> Result<int, ()> {
        match (self, other) {
            (AnimationValue::Opacity(a), AnimationValue::Opacity(b)) => Ok(squared_difference(
                a as int,
                b as int,
            )),
            (AnimationValue::BorderTopWidth(a), AnimationValue::BorderTopWidth(b)) => Ok(
                squared_difference(a as int, b as int),
            ),
            (AnimationValue::BorderRightWidth(a), AnimationValue::BorderRightWidth(b)) => Ok(
                squared_difference(a as int, b as int),
            ),
            (AnimationValue::BorderBottomWidth(a), AnimationValue::BorderBottomWidth(b)) => Ok(
                squared_difference(a as int, b as int),
            ),
            (AnimationValue::BorderLeftWidth(a), AnimationValue::BorderLeftWidth(b)) => Ok(
                squared_difference(a as int, b as int),
            ),
            (AnimationValue::FontSize(a), AnimationValue::FontSize(b)) => Ok(squared_difference(
                a as int,
                b as int,
            )),
            (AnimationValue::Clip(a), AnimationValue::Clip(b)) => a.distance(b),
            (AnimationValue::Visibility(a), AnimationValue::Visibility(b)) => Ok(
                if a == b {
                    0int
                } else {
                    1int
                },
            ),
            (AnimationValue::ContentVisibility(a), AnimationValue::ContentVisibility(b)) => Ok(
                if a == b {
                    0int
                } else {
                    1int
                },
            ),
            _ => Err(()),
        }
    }

    /// The identity value for additive composition: zero for the continuous
    /// groups that have one, undefined for the keyword payloads, discrete
    /// payloads and custom properties.
    pub open spec fn zero(self) -> Result<AnimationValue, ()> {
        match self {
            AnimationValue::Opacity(_) => Ok(AnimationValue::Opacity(0)),
            AnimationValue::BorderTopWidth(_) => Ok(AnimationValue::BorderTopWidth(0)),
            AnimationValue::BorderRightWidth(_) => Ok(AnimationValue::BorderRightWidth(0)),
            AnimationValue::BorderBottomWidth(_) => Ok(AnimationValue::BorderBottomWidth(0)),
            AnimationValue::BorderLeftWidth(_) => Ok(AnimationValue::BorderLeftWidth(0)),
            AnimationValue::FontSize(_) => Ok(AnimationValue::FontSize(0)),
            AnimationValue::Clip(r) => Ok(AnimationValue::Clip(r.zero())),
            AnimationValue::Visibility(_) => Err(()),
            AnimationValue::ContentVisibility(_) => Err(()),
            AnimationValue::BorderTopStyle(_) => Err(()),
            AnimationValue::Custom(_) => Err(()),
        }
    }

    /// Returns the identity of the property this value belongs to: the
    /// longhand id, or the custom name wrapped as its own id kind.
    pub fn id(&self) -> (r: OwnedPropertyDeclarationId)
        ensures
            r == self.id_spec(),
    {
        match self {
            AnimationValue::Opacity(_) => OwnedPropertyDeclarationId::Longhand(LonghandId::Opacity),
            AnimationValue::BorderTopWidth(_) => OwnedPropertyDeclarationId::Longhand(
                LonghandId::BorderTopWidth,
            ),
            AnimationValue::BorderRightWidth(_) => OwnedPropertyDeclarationId::Longhand(
                LonghandId::BorderRightWidth,
            ),
            AnimationValue::BorderBottomWidth(_) => OwnedPropertyDeclarationId::Longhand(
                LonghandId::BorderBottomWidth,
            ),
            AnimationValue::BorderLeftWidth(_) => OwnedPropertyDeclarationId::Longhand(
                LonghandId::BorderLeftWidth,
            ),
            AnimationValue::FontSize(_) => OwnedPropertyDeclarationId::Longhand(
                LonghandId::FontSize,
            ),
            AnimationValue::Clip(_) => OwnedPropertyDeclarationId::Longhand(LonghandId::Clip),
            AnimationValue::Visibility(_) => OwnedPropertyDeclarationId::Longhand(
                LonghandId::Visibility,
            ),
            AnimationValue::ContentVisibility(_) => OwnedPropertyDeclarationId::Longhand(
                LonghandId::ContentVisibility,
            ),
            AnimationValue::BorderTopStyle(_) => OwnedPropertyDeclarationId::Longhand(
                LonghandId::BorderTopStyle,
            ),
            AnimationValue::Custom(v) => OwnedPropertyDeclarationId::Custom(v.name),
        }
    }

    /// Compares two values: differing tags compare unequal, equal tags
    /// compare the payload.
    pub fn equals(&self, other: &AnimationValue) -> (b: bool)
        ensures
            b == self.eq_spec(*other),
    {
        *self == *other
    }

    /// Blends two values of one property under the given procedure.
    pub fn animate(&self, other: &AnimationValue, procedure: Procedure) -> (r: Result<
        AnimationValue,
        IncompatibleKinds,
    >)
        requires
            self.same_property(*other),
            self.wf(),
            other.wf(),
            procedure.wf(),
        ensures
            r == self.blend(*other, procedure),
            procedure is Interpolate ==> (r matches Ok(v) ==> v.wf()),
    {
        proof {
            if let Procedure::Interpolate { progress } = procedure {
                lemma_blend_interpolate_wf(*self, *other, progress);
            }
        }
        match (self, other) {
            (AnimationValue::Opacity(a), AnimationValue::Opacity(b)) => Ok(
                AnimationValue::Opacity(animate_scalar(*a, *b, procedure)),
            ),
            (AnimationValue::BorderTopWidth(a), AnimationValue::BorderTopWidth(b)) => Ok(
                AnimationValue::BorderTopWidth(animate_scalar(*a, *b, procedure)),
            ),
            (AnimationValue::BorderRightWidth(a), AnimationValue::BorderRightWidth(b)) => Ok(
                AnimationValue::BorderRightWidth(animate_scalar(*a, *b, procedure)),
            ),
            (AnimationValue::BorderBottomWidth(a), AnimationValue::BorderBottomWidth(b)) => Ok(
                AnimationValue::BorderBottomWidth(animate_scalar(*a, *b, procedure)),
            ),
            (AnimationValue::BorderLeftWidth(a), AnimationValue::BorderLeftWidth(b)) => Ok(
                AnimationValue::BorderLeftWidth(animate_scalar(*a, *b, procedure)),
            ),
            (AnimationValue::FontSize(a), AnimationValue::FontSize(b)) => Ok(
                AnimationValue::FontSize(animate_scalar(*a, *b, procedure)),
            ),
            (AnimationValue::Clip(a), AnimationValue::Clip(b)) => match a.animate(b, procedure) {
                Ok(r) => Ok(AnimationValue::Clip(r)),
                Err(e) => Err(e),
            },
            (AnimationValue::Visibility(a), AnimationValue::Visibility(b)) => match a.animate(
                b,
                procedure,
            ) {
                Ok(r) => Ok(AnimationValue::Visibility(r)),
                Err(e) => Err(e),
            },
            (AnimationValue::ContentVisibility(a), AnimationValue::ContentVisibility(b)) => match a
                .animate(b, procedure) {
                Ok(r) => Ok(AnimationValue::ContentVisibility(r)),
                Err(e) => Err(e),
            },
            (AnimationValue::BorderTopStyle(a), AnimationValue::BorderTopStyle(b)) => match
                animate_discrete(a, b, procedure) {
                Ok(r) => Ok(AnimationValue::BorderTopStyle(r)),
                Err(e) => Err(e),
            },
            (AnimationValue::Custom(a), AnimationValue::Custom(b)) => match animate_discrete(
                a,
                b,
                procedure,
            ) {
                Ok(r) => Ok(AnimationValue::Custom(r)),
                Err(e) => Err(e),
            },
            _ => unreached(),
        }
    }

    /// Returns whether this value is interpolable with another one: whether
    /// interpolating the pair at half progress succeeds.
    pub fn interpolable_with(&self, other: &AnimationValue) -> (b: bool)
        requires
            self.same_property(*other),
            self.wf(),
            other.wf(),
        ensures
            b == (self.blend(*other, Procedure::Interpolate { progress: HALF }) is Ok),
    {
        self.animate(other, Procedure::Interpolate { progress: HALF }).is_ok()
    }

    /// The squared distance between two values of one property; fails for
    /// discrete payloads and for custom properties.
    pub fn compute_squared_distance(&self, other: &AnimationValue) -> (r: Result<u64, ()>)
        requires
            self.same_property(*other),
            self.wf(),
            other.wf(),
        ensures
            r matches Ok(d) ==> self.distance(*other) == Ok::<int, ()>(d as int),
            r is Err <==> self.distance(*other) is Err,
    {
        match (self, other) {
            (AnimationValue::Opacity(a), AnimationValue::Opacity(b)) => Ok(
                scalar_squared_distance(*a, *b),
            ),
            (AnimationValue::BorderTopWidth(a), AnimationValue::BorderTopWidth(b)) => Ok(
                scalar_squared_distance(*a, *b),
            ),
            (AnimationValue::BorderRightWidth(a), AnimationValue::BorderRightWidth(b)) => Ok(
                scalar_squared_distance(*a, *b),
            ),
            (AnimationValue::BorderBottomWidth(a), AnimationValue::BorderBottomWidth(b)) => Ok(
                scalar_squared_distance(*a, *b),
            ),
            (AnimationValue::BorderLeftWidth(a), AnimationValue::BorderLeftWidth(b)) => Ok(
                scalar_squared_distance(*a, *b),
            ),
            (AnimationValue::FontSize(a), AnimationValue::FontSize(b)) => Ok(
                scalar_squared_distance(*a, *b),
            ),
            (AnimationValue::Clip(a), AnimationValue::Clip(b)) => a.compute_squared_distance(b),
            (AnimationValue::Visibility(a), AnimationValue::Visibility(b)) => a
                .compute_squared_distance(b),
            (AnimationValue::ContentVisibility(a), AnimationValue::ContentVisibility(b)) => a
                .compute_squared_distance(b),
            (AnimationValue::BorderTopStyle(_), AnimationValue::BorderTopStyle(_)) => Err(()),
            (AnimationValue::Custom(_), AnimationValue::Custom(_)) => Err(()),
            _ => unreached(),
        }
    }

    /// Returns the value's identity for additive composition; fails for the
    /// payloads that have none.
    pub fn to_animated_zero(&self) -> (r: Result<AnimationValue, ()>)
        ensures
            r == self.zero(),
    {
        match self {
            AnimationValue::Opacity(_) => Ok(AnimationValue::Opacity(0)),
            AnimationValue::BorderTopWidth(_) => Ok(AnimationValue::BorderTopWidth(0)),
            AnimationValue::BorderRightWidth(_) => Ok(AnimationValue::BorderRightWidth(0)),
            AnimationValue::BorderBottomWidth(_) => Ok(AnimationValue::BorderBottomWidth(0)),
            AnimationValue::BorderLeftWidth(_) => Ok(AnimationValue::BorderLeftWidth(0)),
            AnimationValue::FontSize(_) => Ok(AnimationValue::FontSize(0)),
            AnimationValue::Clip(r) => match r.to_animated_zero() {
                Ok(z) => Ok(AnimationValue::Clip(z)),
                Err(e) => Err(e),
            },
            AnimationValue::Visibility(_) => Err(()),
            AnimationValue::ContentVisibility(_) => Err(()),
            AnimationValue::BorderTopStyle(_) => Err(()),
            AnimationValue::Custom(_) => Err(()),
        }
    }
}

/// Interpolating two bounded values of one property yields a bounded value:
/// interpolation never leaves the interval between its operands, so a
/// scheduler may feed a frame's result back into the next blend.
pub proof fn lemma_blend_interpolate_wf(a: AnimationValue, b: AnimationValue, progress: i64)
    requires
        a.wf(),
        b.wf(),
        0 <= progress <= SCALE,
    ensures
        a.blend(b, Procedure::Interpolate { progress }) matches Ok(v) ==> v.wf(),
{
    match (a, b) {
        (AnimationValue::Opacity(x), AnimationValue::Opacity(y)) => {
            crate::animate::lemma_lerp_bounds(x as int, y as int, progress as int);
        },
        (AnimationValue::BorderTopWidth(x), AnimationValue::BorderTopWidth(y)) => {
            crate::animate::lemma_lerp_bounds(x as int, y as int, progress as int);
        },
        (AnimationValue::BorderRightWidth(x), AnimationValue::BorderRightWidth(y)) => {
            crate::animate::lemma_lerp_bounds(x as int, y as int, progress as int);
        },
        (AnimationValue::BorderBottomWidth(x), AnimationValue::BorderBottomWidth(y)) => {
            crate::animate::lemma_lerp_bounds(x as int, y as int, progress as int);
        },
        (AnimationValue::BorderLeftWidth(x), AnimationValue::BorderLeftWidth(y)) => {
            crate::animate::lemma_lerp_bounds(x as int, y as int, progress as int);
        },
        (AnimationValue::FontSize(x), AnimationValue::FontSize(y)) => {
            crate::animate::lemma_lerp_bounds(x as int, y as int, progress as int);
        },
        (AnimationValue::Clip(x), AnimationValue::Clip(y)) => {
            crate::payloads::lemma_clip_edge_interpolate_wf(x.top, y.top, progress);
            crate::payloads::lemma_clip_edge_interpolate_wf(x.right, y.right, progress);
            crate::payloads::lemma_clip_edge_interpolate_wf(x.bottom, y.bottom, progress);
            crate::payloads::lemma_clip_edge_interpolate_wf(x.left, y.left, progress);
        },
        _ => {},
    }
}

/// Self-interpolation identity: interpolating a continuous value with itself
/// at any progress gives the value back.  The two keyword payloads are
/// covered only in their dominant state: interpolating `visibility` between
/// two values neither of which is `Visible`, or `content-visibility` between
/// two values neither of which is `Hidden`, fails by design.
pub proof fn lemma_self_interpolation(a: AnimationValue, progress: i64)
    requires
        a.wf(),
        0 <= progress <= SCALE,
        !a.is_discrete_kind(),
        a matches AnimationValue::Visibility(v) ==> v == Visibility::Visible,
        a matches AnimationValue::ContentVisibility(v) ==> v == ContentVisibility::Hidden,
    ensures
        a.blend(a, Procedure::Interpolate { progress }) == Ok::<AnimationValue, IncompatibleKinds>(
            a,
        ),
{
    let p = Procedure::Interpolate { progress };
    match a {
        AnimationValue::Opacity(v) => crate::animate::lemma_scalar_self_interpolation(
            v as int,
            progress as int,
        ),
        AnimationValue::BorderTopWidth(v) => crate::animate::lemma_scalar_self_interpolation(
            v as int,
            progress as int,
        ),
        AnimationValue::BorderRightWidth(v) => crate::animate::lemma_scalar_self_interpolation(
            v as int,
            progress as int,
        ),
        AnimationValue::BorderBottomWidth(v) => crate::animate::lemma_scalar_self_interpolation(
            v as int,
            progress as int,
        ),
        AnimationValue::BorderLeftWidth(v) => crate::animate::lemma_scalar_self_interpolation(
            v as int,
            progress as int,
        ),
        AnimationValue::FontSize(v) => crate::animate::lemma_scalar_self_interpolation(
            v as int,
            progress as int,
        ),
        AnimationValue::Clip(r) => {
            lemma_clip_edge_self_interpolation(r.top, progress);
            lemma_clip_edge_self_interpolation(r.right, progress);
            lemma_clip_edge_self_interpolation(r.bottom, progress);
            lemma_clip_edge_self_interpolation(r.left, progress);
        },
        _ => {},
    }
}

/// Interpolating one clip edge with itself gives the edge back.
proof fn lemma_clip_edge_self_interpolation(e: crate::payloads::LengthOrAuto, progress: i64)
    ensures
        crate::payloads::clip_edge_blend(e, e, Procedure::Interpolate { progress }) == Ok::<
            crate::payloads::LengthOrAuto,
            IncompatibleKinds,
        >(e),
{
    match e {
        crate::payloads::LengthOrAuto::Auto => {},
        crate::payloads::LengthOrAuto::Length(v) => {
            crate::animate::lemma_scalar_self_interpolation(v as int, progress as int);
        },
    }
}

/// Discrete flip law: for two values of one discrete-kind property, blending
/// under interpolation yields the first below half progress and the second at
/// or above it.
pub proof fn lemma_discrete_flip(a: AnimationValue, b: AnimationValue, progress: i64)
    requires
        a.same_property(b),
        a.is_discrete_kind(),
        a != b,
    ensures
        progress < HALF ==> a.blend(b, Procedure::Interpolate { progress }) == Ok::<
            AnimationValue,
            IncompatibleKinds,
        >(a),
        progress >= HALF ==> a.blend(b, Procedure::Interpolate { progress }) == Ok::<
            AnimationValue,
            IncompatibleKinds,
        >(b),
{
}

/// Clone round-trip: `equals` holds between a value and any exact duplicate
/// of it, such as the one `clone` returns.
pub proof fn lemma_clone_round_trip(a: AnimationValue, duplicate: AnimationValue)
    requires
        duplicate == a,
    ensures
        duplicate.eq_spec(a),
{
}

/// Zero distance: the squared distance between a continuous value and itself
/// is zero.
pub proof fn lemma_zero_distance(a: AnimationValue)
    requires
        a.wf(),
        !a.is_discrete_kind(),
    ensures
        a.distance(a) == Ok::<int, ()>(0),
{
}

} // verus!
