//! The conversion layer: declarations to animated values and back.

use animated_style::catalog::{Atom, LonghandId, OwnedPropertyDeclarationId, VariableValue};
use animated_style::declaration::{
    CSSWideKeyword, CustomDeclaration, CustomDeclarationValue, PropertyDeclaration,
    VariableDeclaration, WideKeywordDeclaration,
};
use animated_style::payloads::{
    BorderStyle, ClipRect, ContentVisibility, Direction, LengthOrAuto, Visibility,
};
use animated_style::style::{ComputedValues, Context};
use animated_style::value::{AnimationValue, CustomAnimatedValue};

fn style() -> ComputedValues {
    ComputedValues {
        opacity: 700,
        border_top_width: 10,
        border_right_width: 11,
        border_bottom_width: 12,
        border_left_width: 13,
        font_size: 160,
        clip: ClipRect {
            top: LengthOrAuto::Auto,
            right: LengthOrAuto::Length(20),
            bottom: LengthOrAuto::Length(30),
            left: LengthOrAuto::Auto,
        },
        visibility: Visibility::Visible,
        content_visibility: ContentVisibility::Auto,
        border_top_style: BorderStyle::Solid,
        margin_inline_start: 5,
        direction: Direction::Ltr,
        custom_inherited: vec![(Atom(1), VariableValue(100))],
        custom_non_inherited: vec![(Atom(1), VariableValue(200)), (Atom(2), VariableValue(300))],
        transition_properties: vec![],
    }
}

fn initial_style() -> ComputedValues {
    ComputedValues { opacity: 1000, font_size: 120, visibility: Visibility::Visible, ..style() }
}

fn parent_style() -> ComputedValues {
    ComputedValues { opacity: 400, font_size: 200, visibility: Visibility::Hidden, ..style() }
}

fn context() -> Context {
    Context {
        parent_style: parent_style(),
        substitutions: vec![(Atom(9), PropertyDeclaration::Opacity(650))],
        for_non_inherited_property: false,
    }
}

#[test]
fn value_declarations_convert_directly() {
    let mut cx = context();
    let s = style();
    let initial = initial_style();
    let r = AnimationValue::from_declaration(&PropertyDeclaration::Opacity(350), &mut cx, &s, &initial);
    assert_eq!(r, Some(AnimationValue::Opacity(350)));
    // Converting a non-inherited property's value records that in the context.
    assert!(cx.for_non_inherited_property);
    let r = AnimationValue::from_declaration(&PropertyDeclaration::FontSize(90), &mut cx, &s, &initial);
    assert_eq!(r, Some(AnimationValue::FontSize(90)));
    assert!(!cx.for_non_inherited_property);
}

#[test]
fn boxed_clip_declaration_converts() {
    let mut cx = context();
    let rect = ClipRect {
        top: LengthOrAuto::Length(1),
        right: LengthOrAuto::Length(2),
        bottom: LengthOrAuto::Length(3),
        left: LengthOrAuto::Auto,
    };
    let r = AnimationValue::from_declaration(
        &PropertyDeclaration::Clip(Box::new(rect)),
        &mut cx,
        &style(),
        &initial_style(),
    );
    assert_eq!(r, Some(AnimationValue::Clip(rect)));
}

#[test]
fn non_animatable_and_logical_declarations_convert_to_nothing() {
    let mut cx = context();
    let s = style();
    let initial = initial_style();
    assert_eq!(
        AnimationValue::from_declaration(
            &PropertyDeclaration::Direction(Direction::Rtl),
            &mut cx,
            &s,
            &initial
        ),
        None
    );
    assert_eq!(
        AnimationValue::from_declaration(
            &PropertyDeclaration::MarginInlineStart(9),
            &mut cx,
            &s,
            &initial
        ),
        None
    );
}

#[test]
fn wide_keywords_on_a_non_inherited_property() {
    let s = style();
    let initial = initial_style();
    // For a non-inherited property, revert, revert-layer and unset behave as
    // initial; only inherit reads the parent style.
    for kw in [
        CSSWideKeyword::Initial,
        CSSWideKeyword::Unset,
        CSSWideKeyword::Revert,
        CSSWideKeyword::RevertLayer,
    ] {
        let mut cx = context();
        let d = PropertyDeclaration::CSSWideKeyword(WideKeywordDeclaration {
            id: LonghandId::Opacity,
            keyword: kw,
        });
        assert_eq!(
            AnimationValue::from_declaration(&d, &mut cx, &s, &initial),
            Some(AnimationValue::Opacity(1000))
        );
    }
    let mut cx = context();
    let d = PropertyDeclaration::CSSWideKeyword(WideKeywordDeclaration {
        id: LonghandId::Opacity,
        keyword: CSSWideKeyword::Inherit,
    });
    assert_eq!(
        AnimationValue::from_declaration(&d, &mut cx, &s, &initial),
        Some(AnimationValue::Opacity(400))
    );
}

#[test]
fn wide_keywords_on_an_inherited_property() {
    let s = style();
    let initial = initial_style();
    // For an inherited property, revert, revert-layer and unset behave as
    // inherit; only initial reads the initial style.
    for kw in [
        CSSWideKeyword::Inherit,
        CSSWideKeyword::Unset,
        CSSWideKeyword::Revert,
        CSSWideKeyword::RevertLayer,
    ] {
        let mut cx = context();
        let d = PropertyDeclaration::CSSWideKeyword(WideKeywordDeclaration {
            id: LonghandId::FontSize,
            keyword: kw,
        });
        assert_eq!(
            AnimationValue::from_declaration(&d, &mut cx, &s, &initial),
            Some(AnimationValue::FontSize(200))
        );
    }
    let mut cx = context();
    let d = PropertyDeclaration::CSSWideKeyword(WideKeywordDeclaration {
        id: LonghandId::FontSize,
        keyword: CSSWideKeyword::Initial,
    });
    assert_eq!(
        AnimationValue::from_declaration(&d, &mut cx, &s, &initial),
        Some(AnimationValue::FontSize(120))
    );
}

#[test]
fn wide_keyword_on_an_excluded_property_converts_to_nothing() {
    let mut cx = context();
    let d = PropertyDeclaration::CSSWideKeyword(WideKeywordDeclaration {
        id: LonghandId::Direction,
        keyword: CSSWideKeyword::Initial,
    });
    assert_eq!(AnimationValue::from_declaration(&d, &mut cx, &style(), &initial_style()), None);
}

#[test]
fn variable_references_substitute_before_converting() {
    let mut cx = context();
    let d = PropertyDeclaration::WithVariables(VariableDeclaration {
        id: LonghandId::Opacity,
        name: Atom(9),
    });
    assert_eq!(
        AnimationValue::from_declaration(&d, &mut cx, &style(), &initial_style()),
        Some(AnimationValue::Opacity(650))
    );
    // The substituted value arm also records the inheritance class.
    assert!(cx.for_non_inherited_property);
}

#[test]
fn substitution_for_another_property_behaves_as_unset() {
    let mut cx = context();
    // Atom(9) is bound to an opacity declaration; a font-size reference to
    // it is invalid at computed-value time, so the declaration behaves as
    // `unset` — `inherit` for the inherited font-size — and the result keeps
    // the declared property's tag.
    let d = PropertyDeclaration::WithVariables(VariableDeclaration {
        id: LonghandId::FontSize,
        name: Atom(9),
    });
    assert_eq!(
        AnimationValue::from_declaration(&d, &mut cx, &style(), &initial_style()),
        Some(AnimationValue::FontSize(200))
    );
    // The fallback is no value arm, so the context flag is untouched.
    assert!(!cx.for_non_inherited_property);
}

#[test]
fn unresolved_variable_reference_falls_back_to_unset() {
    let mut cx = context();
    // Atom(42) has no substitution: invalid at computed-value time, so the
    // declaration behaves as `unset` — `initial` for non-inherited opacity.
    let d = PropertyDeclaration::WithVariables(VariableDeclaration {
        id: LonghandId::Opacity,
        name: Atom(42),
    });
    assert_eq!(
        AnimationValue::from_declaration(&d, &mut cx, &style(), &initial_style()),
        Some(AnimationValue::Opacity(1000))
    );
}

#[test]
fn custom_declarations_construct_custom_values() {
    let mut cx = context();
    let d = PropertyDeclaration::Custom(CustomDeclaration {
        name: Atom(5),
        value: CustomDeclarationValue::Value(VariableValue(77)),
    });
    assert_eq!(
        AnimationValue::from_declaration(&d, &mut cx, &style(), &initial_style()),
        Some(AnimationValue::Custom(CustomAnimatedValue {
            name: Atom(5),
            value: VariableValue(77)
        }))
    );
    // Construction fails for a CSS-wide keyword on a custom property.
    let d = PropertyDeclaration::Custom(CustomDeclaration {
        name: Atom(5),
        value: CustomDeclarationValue::CSSWideKeyword(CSSWideKeyword::Initial),
    });
    assert_eq!(AnimationValue::from_declaration(&d, &mut cx, &style(), &initial_style()), None);
}

#[test]
fn from_computed_values_reads_longhands_and_customs() {
    let s = style();
    assert_eq!(
        AnimationValue::from_computed_values(
            &OwnedPropertyDeclarationId::Longhand(LonghandId::Visibility),
            &s
        ),
        Some(AnimationValue::Visibility(Visibility::Visible))
    );
    assert_eq!(
        AnimationValue::from_computed_values(
            &OwnedPropertyDeclarationId::Longhand(LonghandId::Direction),
            &s
        ),
        None
    );
    assert_eq!(
        AnimationValue::from_computed_values(
            &OwnedPropertyDeclarationId::Longhand(LonghandId::MarginInlineStart),
            &s
        ),
        None
    );
    // The inherited map shadows the non-inherited one.
    assert_eq!(
        AnimationValue::from_computed_values(&OwnedPropertyDeclarationId::Custom(Atom(1)), &s),
        Some(AnimationValue::Custom(CustomAnimatedValue {
            name: Atom(1),
            value: VariableValue(100)
        }))
    );
    assert_eq!(
        AnimationValue::from_computed_values(&OwnedPropertyDeclarationId::Custom(Atom(2)), &s),
        Some(AnimationValue::Custom(CustomAnimatedValue {
            name: Atom(2),
            value: VariableValue(300)
        }))
    );
    // Absent from both maps: no value.
    assert_eq!(
        AnimationValue::from_computed_values(&OwnedPropertyDeclarationId::Custom(Atom(3)), &s),
        None
    );
}

#[test]
fn uncompute_wraps_payloads_per_the_catalog() {
    assert_eq!(AnimationValue::Opacity(5).uncompute(), PropertyDeclaration::Opacity(5));
    let rect = ClipRect {
        top: LengthOrAuto::Auto,
        right: LengthOrAuto::Length(2),
        bottom: LengthOrAuto::Length(3),
        left: LengthOrAuto::Length(4),
    };
    assert_eq!(
        AnimationValue::Clip(rect).uncompute(),
        PropertyDeclaration::Clip(Box::new(rect))
    );
    assert_eq!(
        AnimationValue::Custom(CustomAnimatedValue { name: Atom(5), value: VariableValue(6) })
            .uncompute(),
        PropertyDeclaration::Custom(CustomDeclaration {
            name: Atom(5),
            value: CustomDeclarationValue::Value(VariableValue(6)),
        })
    );
}

#[test]
fn conversion_round_trips_through_uncompute() {
    let s = style();
    let initial = initial_style();
    let declarations = [
        PropertyDeclaration::BorderTopWidth(7),
        PropertyDeclaration::FontSize(90),
        PropertyDeclaration::Visibility(Visibility::Collapse),
        PropertyDeclaration::BorderTopStyle(BorderStyle::Dotted),
        PropertyDeclaration::CSSWideKeyword(WideKeywordDeclaration {
            id: LonghandId::Opacity,
            keyword: CSSWideKeyword::Inherit,
        }),
    ];
    for d in declarations {
        let mut cx = context();
        let v = AnimationValue::from_declaration(&d, &mut cx, &s, &initial).unwrap();
        let u = v.uncompute();
        let again = AnimationValue::from_declaration(&u, &mut cx, &s, &initial).unwrap();
        assert!(again.equals(&v));
    }
}

#[test]
fn set_in_style_updates_only_the_owning_field() {
    let mut s = style();
    AnimationValue::Opacity(123).set_in_style_for_servo(&mut s);
    assert_eq!(s.opacity, 123);
    assert_eq!(s.font_size, 160);
    AnimationValue::Visibility(Visibility::Hidden).set_in_style_for_servo(&mut s);
    assert_eq!(s.visibility, Visibility::Hidden);
    assert_eq!(s.opacity, 123);
}
