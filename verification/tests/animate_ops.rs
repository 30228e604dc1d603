//! Blend-rule behavior: procedures, discrete flips, keyword payloads,
//! filters and clip rectangles.

use animated_style::animate::{animate_discrete, Procedure, SCALE};
use animated_style::payloads::{
    AnimatedFilter, BorderStyle, ClipRect, ContentVisibility, DropShadow, LengthOrAuto, Visibility,
};
use animated_style::value::AnimationValue;

fn interp(progress: i64) -> Procedure {
    Procedure::Interpolate { progress }
}

#[test]
fn opacity_interpolates_linearly() {
    let a = AnimationValue::Opacity(200);
    let b = AnimationValue::Opacity(800);
    assert_eq!(a.animate(&b, interp(500)), Ok(AnimationValue::Opacity(500)));
    assert_eq!(a.animate(&b, interp(0)), Ok(AnimationValue::Opacity(200)));
    assert_eq!(a.animate(&b, interp(SCALE)), Ok(AnimationValue::Opacity(800)));
    assert_eq!(a.animate(&b, interp(250)), Ok(AnimationValue::Opacity(350)));
}

#[test]
fn self_interpolation_returns_the_value() {
    let a = AnimationValue::BorderTopWidth(123);
    for p in [0, 1, 250, 499, 500, 999, 1000] {
        assert_eq!(a.animate(&a, interp(p)), Ok(a));
    }
    let c = AnimationValue::Clip(ClipRect {
        top: LengthOrAuto::Auto,
        right: LengthOrAuto::Length(40),
        bottom: LengthOrAuto::Length(-7),
        left: LengthOrAuto::Auto,
    });
    assert_eq!(c.animate(&c, interp(300)), Ok(c));
}

#[test]
fn interpolation_results_chain_into_further_blends() {
    // Interpolation never leaves the interval between its operands, so a
    // frame's result can be fed into the next frame's blend.
    let mut current = AnimationValue::Opacity(0);
    let target = AnimationValue::Opacity(1000);
    for _frame in 0..4 {
        current = current.animate(&target, interp(250)).unwrap();
    }
    // 0 -> 250 -> 437 -> 577 -> 682, each step a quarter of the remainder.
    assert_eq!(current, AnimationValue::Opacity(682));
}

#[test]
fn addition_and_accumulation_are_exact() {
    let a = AnimationValue::FontSize(100);
    let b = AnimationValue::FontSize(50);
    assert_eq!(a.animate(&b, Procedure::Add), Ok(AnimationValue::FontSize(150)));
    assert_eq!(
        a.animate(&b, Procedure::Accumulate { count: 3 }),
        Ok(AnimationValue::FontSize(350))
    );
}

#[test]
fn discrete_flip_at_half_progress() {
    let a = AnimationValue::BorderTopStyle(BorderStyle::Solid);
    let b = AnimationValue::BorderTopStyle(BorderStyle::Dashed);
    assert_eq!(a.animate(&b, interp(0)), Ok(a));
    assert_eq!(a.animate(&b, interp(499)), Ok(a));
    assert_eq!(a.animate(&b, interp(500)), Ok(b));
    assert_eq!(a.animate(&b, interp(1000)), Ok(b));
    assert!(a.animate(&b, Procedure::Add).is_err());
    assert!(a.animate(&b, Procedure::Accumulate { count: 1 }).is_err());
}

#[test]
fn generic_discrete_blend_flips() {
    assert_eq!(animate_discrete(&3u32, &9u32, interp(499)), Ok(3));
    assert_eq!(animate_discrete(&3u32, &9u32, interp(500)), Ok(9));
    assert!(animate_discrete(&3u32, &9u32, Procedure::Add).is_err());
}

#[test]
fn visibility_interpolation_favors_visible() {
    // The side that is `Visible` wins whenever its weight is positive.
    assert_eq!(
        Visibility::Visible.animate(&Visibility::Hidden, interp(300)),
        Ok(Visibility::Visible)
    );
    assert_eq!(
        Visibility::Visible.animate(&Visibility::Hidden, interp(1000)),
        Ok(Visibility::Hidden)
    );
    assert_eq!(
        Visibility::Hidden.animate(&Visibility::Visible, interp(1)),
        Ok(Visibility::Visible)
    );
    assert_eq!(
        Visibility::Hidden.animate(&Visibility::Visible, interp(0)),
        Ok(Visibility::Hidden)
    );
    // Neither side visible: interpolation fails.
    assert!(Visibility::Hidden.animate(&Visibility::Collapse, interp(500)).is_err());
    // Non-interpolate procedures fail.
    assert!(Visibility::Visible.animate(&Visibility::Hidden, Procedure::Add).is_err());
}

#[test]
fn content_visibility_mirrors_with_hidden_dominant() {
    assert_eq!(
        ContentVisibility::Hidden.animate(&ContentVisibility::Visible, interp(300)),
        Ok(ContentVisibility::Visible)
    );
    assert_eq!(
        ContentVisibility::Hidden.animate(&ContentVisibility::Visible, interp(0)),
        Ok(ContentVisibility::Hidden)
    );
    assert_eq!(
        ContentVisibility::Visible.animate(&ContentVisibility::Hidden, interp(300)),
        Ok(ContentVisibility::Visible)
    );
    assert_eq!(
        ContentVisibility::Visible.animate(&ContentVisibility::Hidden, interp(1000)),
        Ok(ContentVisibility::Hidden)
    );
    assert!(ContentVisibility::Visible.animate(&ContentVisibility::Auto, interp(500)).is_err());
}

#[test]
fn filter_factor_interpolation() {
    let a = AnimatedFilter::Opacity(200);
    let b = AnimatedFilter::Opacity(800);
    assert_eq!(a.animate(&b, interp(500)), Ok(AnimatedFilter::Opacity(500)));
    // Kind mismatch fails.
    assert!(AnimatedFilter::Opacity(200).animate(&AnimatedFilter::Blur(200), interp(500)).is_err());
}

#[test]
fn filter_factor_addition_is_multiplicative() {
    // Factors add around the identity 1.0, not around zero.
    let a = AnimatedFilter::Brightness(1500);
    let b = AnimatedFilter::Brightness(1300);
    assert_eq!(a.animate(&b, Procedure::Add), Ok(AnimatedFilter::Brightness(1800)));
    // A plain payload adds around zero.
    let c = AnimatedFilter::Blur(1500);
    let d = AnimatedFilter::Blur(1300);
    assert_eq!(c.animate(&d, Procedure::Add), Ok(AnimatedFilter::Blur(2800)));
}

#[test]
fn filter_drop_shadow_blends_componentwise() {
    let a = AnimatedFilter::DropShadow(DropShadow { x: 0, y: 100, blur: 20 });
    let b = AnimatedFilter::DropShadow(DropShadow { x: 100, y: 0, blur: 40 });
    assert_eq!(
        a.animate(&b, interp(500)),
        Ok(AnimatedFilter::DropShadow(DropShadow { x: 50, y: 50, blur: 30 }))
    );
}

#[test]
fn filter_zero_is_each_kinds_identity() {
    assert_eq!(AnimatedFilter::Blur(300).to_animated_zero(), Ok(AnimatedFilter::Blur(0)));
    assert_eq!(
        AnimatedFilter::DropShadow(DropShadow { x: 9, y: 8, blur: 7 }).to_animated_zero(),
        Ok(AnimatedFilter::DropShadow(DropShadow { x: 0, y: 0, blur: 0 }))
    );
    assert_eq!(AnimatedFilter::Opacity(300).to_animated_zero(), Ok(AnimatedFilter::Opacity(SCALE)));
    assert_eq!(
        AnimatedFilter::Saturate(300).to_animated_zero(),
        Ok(AnimatedFilter::Saturate(SCALE))
    );
}

#[test]
fn clip_rect_interpolates_per_edge() {
    let a = ClipRect {
        top: LengthOrAuto::Length(0),
        right: LengthOrAuto::Length(100),
        bottom: LengthOrAuto::Auto,
        left: LengthOrAuto::Length(-100),
    };
    let b = ClipRect {
        top: LengthOrAuto::Length(50),
        right: LengthOrAuto::Length(0),
        bottom: LengthOrAuto::Auto,
        left: LengthOrAuto::Length(100),
    };
    assert_eq!(
        a.animate(&b, interp(500)),
        Ok(ClipRect {
            top: LengthOrAuto::Length(25),
            right: LengthOrAuto::Length(50),
            bottom: LengthOrAuto::Auto,
            left: LengthOrAuto::Length(0),
        })
    );
}

#[test]
fn clip_rect_auto_fails_non_interpolate_procedures() {
    // A known legacy quirk, preserved for compatibility: under a procedure
    // other than interpolation, an edge resolving to `auto` fails the whole
    // rectangle.
    let a = ClipRect {
        top: LengthOrAuto::Auto,
        right: LengthOrAuto::Length(10),
        bottom: LengthOrAuto::Length(10),
        left: LengthOrAuto::Length(10),
    };
    assert!(a.animate(&a, Procedure::Add).is_err());
    assert!(a.animate(&a, Procedure::Accumulate { count: 2 }).is_err());
    assert_eq!(a.animate(&a, interp(500)), Ok(a));
}

#[test]
fn clip_rect_mixed_edge_kinds_fail() {
    let a = ClipRect {
        top: LengthOrAuto::Auto,
        right: LengthOrAuto::Length(10),
        bottom: LengthOrAuto::Length(10),
        left: LengthOrAuto::Length(10),
    };
    let b = ClipRect {
        top: LengthOrAuto::Length(5),
        right: LengthOrAuto::Length(10),
        bottom: LengthOrAuto::Length(10),
        left: LengthOrAuto::Length(10),
    };
    assert!(a.animate(&b, interp(500)).is_err());
}
