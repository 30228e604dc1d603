//! Identity, equality, cloning, distance and zeroing of animated values,
//! and the catalog tables.

use animated_style::animate::Procedure;
use animated_style::catalog::{
    animated_longhands, Atom, LonghandId, NonCustomPropertyId, OwnedPropertyDeclarationId,
    PropertyGroup, ShorthandId, VariableValue,
};
use animated_style::payloads::{BorderStyle, ClipRect, LengthOrAuto, Visibility};
use animated_style::value::{AnimationValue, CustomAnimatedValue};

#[test]
fn id_returns_the_owning_property() {
    assert_eq!(
        AnimationValue::Opacity(10).id(),
        OwnedPropertyDeclarationId::Longhand(LonghandId::Opacity)
    );
    assert_eq!(
        AnimationValue::Custom(CustomAnimatedValue { name: Atom(7), value: VariableValue(3) }).id(),
        OwnedPropertyDeclarationId::Custom(Atom(7))
    );
}

#[test]
fn clone_round_trips_through_equals() {
    let values = [
        AnimationValue::Opacity(250),
        AnimationValue::Clip(ClipRect {
            top: LengthOrAuto::Auto,
            right: LengthOrAuto::Length(4),
            bottom: LengthOrAuto::Length(5),
            left: LengthOrAuto::Length(6),
        }),
        AnimationValue::Visibility(Visibility::Collapse),
        AnimationValue::BorderTopStyle(BorderStyle::Double),
        AnimationValue::Custom(CustomAnimatedValue { name: Atom(1), value: VariableValue(2) }),
    ];
    for v in values {
        assert!(v.clone().equals(&v));
    }
}

#[test]
fn equals_distinguishes_tags_and_payloads() {
    assert!(!AnimationValue::Opacity(5).equals(&AnimationValue::FontSize(5)));
    assert!(!AnimationValue::Opacity(5).equals(&AnimationValue::Opacity(6)));
    assert!(
        !AnimationValue::BorderTopWidth(5).equals(&AnimationValue::BorderBottomWidth(5))
    );
    assert!(AnimationValue::FontSize(5).equals(&AnimationValue::FontSize(5)));
}

#[test]
fn squared_distance_of_continuous_values() {
    let a = AnimationValue::Opacity(3);
    let b = AnimationValue::Opacity(7);
    assert_eq!(a.compute_squared_distance(&b), Ok(16));
    assert_eq!(a.compute_squared_distance(&a), Ok(0));
    let v = AnimationValue::Visibility(Visibility::Visible);
    let h = AnimationValue::Visibility(Visibility::Hidden);
    assert_eq!(v.compute_squared_distance(&h), Ok(1));
    assert_eq!(v.compute_squared_distance(&v), Ok(0));
}

#[test]
fn squared_distance_of_clip_rects_sums_edges() {
    let a = AnimationValue::Clip(ClipRect {
        top: LengthOrAuto::Length(0),
        right: LengthOrAuto::Length(10),
        bottom: LengthOrAuto::Auto,
        left: LengthOrAuto::Length(1),
    });
    let b = AnimationValue::Clip(ClipRect {
        top: LengthOrAuto::Length(3),
        right: LengthOrAuto::Length(14),
        bottom: LengthOrAuto::Auto,
        left: LengthOrAuto::Length(1),
    });
    assert_eq!(a.compute_squared_distance(&b), Ok(9 + 16));
}

#[test]
fn squared_distance_undefined_for_discrete_and_custom() {
    let a = AnimationValue::BorderTopStyle(BorderStyle::Solid);
    let b = AnimationValue::BorderTopStyle(BorderStyle::Dotted);
    assert_eq!(a.compute_squared_distance(&b), Err(()));
    let c = AnimationValue::Custom(CustomAnimatedValue { name: Atom(1), value: VariableValue(2) });
    assert_eq!(c.compute_squared_distance(&c), Err(()));
}

#[test]
fn zeroing_continuous_values() {
    assert_eq!(AnimationValue::Opacity(9).to_animated_zero(), Ok(AnimationValue::Opacity(0)));
    assert_eq!(
        AnimationValue::Clip(ClipRect {
            top: LengthOrAuto::Auto,
            right: LengthOrAuto::Length(4),
            bottom: LengthOrAuto::Length(5),
            left: LengthOrAuto::Length(6),
        })
        .to_animated_zero(),
        Ok(AnimationValue::Clip(ClipRect {
            top: LengthOrAuto::Auto,
            right: LengthOrAuto::Length(0),
            bottom: LengthOrAuto::Length(0),
            left: LengthOrAuto::Length(0),
        }))
    );
}

#[test]
fn zeroing_fails_where_no_zero_exists() {
    assert_eq!(AnimationValue::Visibility(Visibility::Visible).to_animated_zero(), Err(()));
    assert_eq!(AnimationValue::BorderTopStyle(BorderStyle::Solid).to_animated_zero(), Err(()));
    assert_eq!(
        AnimationValue::Custom(CustomAnimatedValue { name: Atom(1), value: VariableValue(2) })
            .to_animated_zero(),
        Err(())
    );
}

#[test]
fn interpolable_with_follows_the_blend_rule() {
    let a = AnimationValue::Opacity(1);
    let b = AnimationValue::Opacity(2);
    assert!(a.interpolable_with(&b));
    let h = AnimationValue::Visibility(Visibility::Hidden);
    let c = AnimationValue::Visibility(Visibility::Collapse);
    assert!(!h.interpolable_with(&c));
    let s = AnimationValue::BorderTopStyle(BorderStyle::Solid);
    let d = AnimationValue::BorderTopStyle(BorderStyle::Dashed);
    assert!(s.interpolable_with(&d));
}

#[test]
fn catalog_flags_and_groups() {
    assert!(LonghandId::Opacity.animatable());
    assert!(!LonghandId::Direction.animatable());
    assert!(LonghandId::MarginInlineStart.logical());
    assert!(LonghandId::BorderTopStyle.discrete());
    assert!(LonghandId::FontSize.inherited());
    assert!(!LonghandId::Opacity.inherited());
    assert!(LonghandId::Clip.boxed());
    assert_eq!(LonghandId::Opacity.group(), Some(PropertyGroup::PlainNumber));
    assert_eq!(LonghandId::FontSize.group(), Some(PropertyGroup::Length));
    assert_eq!(LonghandId::Clip.group(), Some(PropertyGroup::Rect));
    assert_eq!(LonghandId::MarginInlineStart.group(), None);
    assert_eq!(LonghandId::Direction.group(), None);
}

#[test]
fn catalog_enumeration_and_order() {
    let all = animated_longhands();
    assert_eq!(all.len(), 10);
    assert_eq!(all[0], LonghandId::Opacity);
    assert_eq!(all[9], LonghandId::BorderTopStyle);
    // Every enumerated longhand is animatable and non-logical.
    for id in &all {
        assert!(id.animatable() && !id.logical());
    }
    // The stable order is the declaration order.
    assert_eq!(LonghandId::Opacity.property_index(), 0);
    assert_eq!(LonghandId::Direction.property_index(), 11);
}

#[test]
fn shorthand_expansion_table() {
    let widths = ShorthandId::BorderWidth.longhands();
    assert_eq!(
        widths,
        vec![
            LonghandId::BorderTopWidth,
            LonghandId::BorderRightWidth,
            LonghandId::BorderBottomWidth,
            LonghandId::BorderLeftWidth,
        ]
    );
    assert_eq!(
        NonCustomPropertyId::Longhand(LonghandId::Opacity).longhand_or_shorthand(),
        Ok(LonghandId::Opacity)
    );
    assert_eq!(
        NonCustomPropertyId::Shorthand(ShorthandId::BorderWidth).longhand_or_shorthand(),
        Err(ShorthandId::BorderWidth)
    );
}
