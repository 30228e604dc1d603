//! The conversion layer: declarations to animated values and back.
//!
//! The animated form of every catalog payload carries the same numbers as
//! its computed form, so the value-to-animated transform and its inverse are
//! the identity on the payload; what conversion decides is which properties
//! convert at all, how CSS-wide keywords resolve, how variable references
//! substitute, and how payloads are boxed on the way back out.

use vstd::prelude::*;
use vstd::pervasive::unreached;
use crate::catalog::{LonghandId, OwnedPropertyDeclarationId};
use crate::declaration::{
    CSSWideKeyword, CustomDeclaration, CustomDeclarationValue, PropertyDeclaration,
    WideKeywordDeclaration,
};
use crate::style::{ComputedValues, Context};
use crate::value::{AnimationValue, CustomAnimatedValue};

verus! {

/// The animated value a style snapshot holds for an animatable, non-logical
/// longhand.  The arms for the two excluded longhands are never consulted.
pub open spec fn read_longhand_spec(id: LonghandId, style: ComputedValues) -> AnimationValue
    recommends
        id.is_animatable(),
        !id.is_logical(),
{
    match id {
        LonghandId::Opacity => AnimationValue::Opacity(style.opacity),
        LonghandId::BorderTopWidth => AnimationValue::BorderTopWidth(style.border_top_width),
        LonghandId::BorderRightWidth => AnimationValue::BorderRightWidth(style.border_right_width),
        LonghandId::BorderBottomWidth => AnimationValue::BorderBottomWidth(
            style.border_bottom_width,
        ),
        LonghandId::BorderLeftWidth => AnimationValue::BorderLeftWidth(style.border_left_width),
        LonghandId::FontSize => AnimationValue::FontSize(style.font_size),
        LonghandId::Clip => AnimationValue::Clip(style.clip),
        LonghandId::Visibility => AnimationValue::Visibility(style.visibility),
        LonghandId::ContentVisibility => AnimationValue::ContentVisibility(
            style.content_visibility,
        ),
        LonghandId::BorderTopStyle => AnimationValue::BorderTopStyle(style.border_top_style),
        LonghandId::MarginInlineStart => AnimationValue::Opacity(style.opacity),
        LonghandId::Direction => AnimationValue::Opacity(style.opacity),
    }
}

/// Reads the animated value of an animatable, non-logical longhand from a
/// style snapshot.
fn read_longhand(id: LonghandId, style: &ComputedValues) -> (r: AnimationValue)
    requires
        id.is_animatable(),
        !id.is_logical(),
        style.wf(),
    ensures
        r == read_longhand_spec(id, *style),
        r.wf(),
        r.id_spec() == OwnedPropertyDeclarationId::Longhand(id),
{
    match id {
        LonghandId::Opacity => AnimationValue::Opacity(style.opacity),
        LonghandId::BorderTopWidth => AnimationValue::BorderTopWidth(style.border_top_width),
        LonghandId::BorderRightWidth => AnimationValue::BorderRightWidth(style.border_right_width),
        LonghandId::BorderBottomWidth => AnimationValue::BorderBottomWidth(
            style.border_bottom_width,
        ),
        LonghandId::BorderLeftWidth => AnimationValue::BorderLeftWidth(style.border_left_width),
        LonghandId::FontSize => AnimationValue::FontSize(style.font_size),
        LonghandId::Clip => AnimationValue::Clip(style.clip),
        LonghandId::Visibility => AnimationValue::Visibility(style.visibility),
        LonghandId::ContentVisibility => AnimationValue::ContentVisibility(
            style.content_visibility,
        ),
        LonghandId::BorderTopStyle => AnimationValue::BorderTopStyle(style.border_top_style),
        LonghandId::MarginInlineStart => unreached(),
        LonghandId::Direction => unreached(),
    }
}

/// How a CSS-wide keyword resolves for a longhand: a non-inherited property
/// treats `revert`, `revert-layer` and `unset` as `initial`; an inherited
/// one treats them as `inherit`.  The resolved value is cloned from the
/// initial style or from the parent style accordingly.
pub open spec fn wide_keyword_value_spec(
    d: WideKeywordDeclaration,
    context: Context,
    initial: ComputedValues,
) -> Option<AnimationValue> {
    if !d.id.is_animatable() || d.id.is_logical() {
        None
    } else {
        let from_initial = if d.id.is_inherited() {
            d.keyword == CSSWideKeyword::Initial
        } else {
            d.keyword != CSSWideKeyword::Inherit
        };
        if from_initial {
            Some(read_longhand_spec(d.id, initial))
        } else {
            Some(read_longhand_spec(d.id, context.parent_style))
        }
    }
}

/// What a custom-property declaration constructs: a custom animated value
/// for a token-stream value; construction fails for a CSS-wide keyword.
pub open spec fn custom_value_from_declaration_spec(d: CustomDeclaration) -> Option<
    CustomAnimatedValue,
> {
    match d.value {
        CustomDeclarationValue::Value(v) => Some(CustomAnimatedValue { name: d.name, value: v }),
        CustomDeclarationValue::CSSWideKeyword(_) => None,
    }
}

/// What a declaration free of variable references converts to.  A
/// declaration of a non-animatable or logical property converts to nothing;
/// that outcome is expected and non-fatal.
pub open spec fn from_resolved_declaration_spec(
    decl: PropertyDeclaration,
    context: Context,
    initial: ComputedValues,
) -> Option<AnimationValue> {
    match decl {
        PropertyDeclaration::Opacity(v) => Some(AnimationValue::Opacity(v)),
        PropertyDeclaration::BorderTopWidth(v) => Some(AnimationValue::BorderTopWidth(v)),
        PropertyDeclaration::BorderRightWidth(v) => Some(AnimationValue::BorderRightWidth(v)),
        PropertyDeclaration::BorderBottomWidth(v) => Some(AnimationValue::BorderBottomWidth(v)),
        PropertyDeclaration::BorderLeftWidth(v) => Some(AnimationValue::BorderLeftWidth(v)),
        PropertyDeclaration::FontSize(v) => Some(AnimationValue::FontSize(v)),
        PropertyDeclaration::Clip(r) => Some(AnimationValue::Clip(*r)),
        PropertyDeclaration::Visibility(v) => Some(AnimationValue::Visibility(v)),
        PropertyDeclaration::ContentVisibility(v) => Some(AnimationValue::ContentVisibility(v)),
        PropertyDeclaration::BorderTopStyle(v) => Some(AnimationValue::BorderTopStyle(v)),
        PropertyDeclaration::MarginInlineStart(_) => None,
        PropertyDeclaration::Direction(_) => None,
        PropertyDeclaration::CSSWideKeyword(d) => wide_keyword_value_spec(d, context, initial),
        PropertyDeclaration::WithVariables(_) => None,
        PropertyDeclaration::Custom(d) => match custom_value_from_declaration_spec(d) {
            Some(v) => Some(AnimationValue::Custom(v)),
            None => None,
        },
    }
}

/// What any declaration converts to.  A variable reference substitutes
/// first — to the declaration the context's substitution machinery yields,
/// taken only where it declares the very longhand that referenced the
/// variable — and the substituted declaration then converts as usual.  A
/// name bound to nothing, or to another property's declaration, is invalid
/// at computed-value time and the declaration behaves as `unset`.  A
/// conversion therefore only ever yields a value for the property the
/// declaration declares.
pub open spec fn from_declaration_spec(
    decl: PropertyDeclaration,
    context: Context,
    initial: ComputedValues,
) -> Option<AnimationValue> {
    match decl {
        PropertyDeclaration::WithVariables(vd) => {
            let fallback = wide_keyword_value_spec(
                WideKeywordDeclaration { id: vd.id, keyword: CSSWideKeyword::Unset },
                context,
                initial,
            );
            match context.substitution_spec(vd.name) {
                Some(sub) => {
                    if sub.longhand_id() == Some(vd.id) {
                        from_resolved_declaration_spec(sub, context, initial)
                    } else {
                        fallback
                    }
                },
                None => fallback,
            }
        },
        _ => from_resolved_declaration_spec(decl, context, initial),
    }
}

/// The context's non-inherited-property flag after a resolved declaration
/// converts: a declaration that reaches an animatable property's value arm
/// leaves the flag stating whether that property is non-inherited; every
/// other declaration leaves the flag alone.
pub open spec fn flag_after_resolved_spec(decl: PropertyDeclaration, context: Context) -> bool {
    match decl.longhand_id() {
        Some(id) => {
            if id.is_animatable() && !(decl is CSSWideKeyword) && !(decl is WithVariables) {
                !id.is_inherited()
            } else {
                context.for_non_inherited_property
            }
        },
        None => context.for_non_inherited_property,
    }
}

/// The context's non-inherited-property flag after any declaration converts.
pub open spec fn flag_after_spec(decl: PropertyDeclaration, context: Context) -> bool {
    match decl {
        PropertyDeclaration::WithVariables(vd) => match context.substitution_spec(vd.name) {
            Some(sub) => {
                if sub.longhand_id() == Some(vd.id) {
                    flag_after_resolved_spec(sub, context)
                } else {
                    context.for_non_inherited_property
                }
            },
            None => context.for_non_inherited_property,
        },
        _ => flag_after_resolved_spec(decl, context),
    }
}

/// What `uncompute` hands back to the cascade for each animated value: the
/// payload under the owning longhand's declaration variant, boxed where the
/// catalog flags the longhand boxed, and a custom value as a custom
/// declaration.
pub open spec fn uncomputed_matches(v: AnimationValue, d: PropertyDeclaration) -> bool {
    match v {
        AnimationValue::Opacity(x) => d == PropertyDeclaration::Opacity(x),
        AnimationValue::BorderTopWidth(x) => d == PropertyDeclaration::BorderTopWidth(x),
        AnimationValue::BorderRightWidth(x) => d == PropertyDeclaration::BorderRightWidth(x),
        AnimationValue::BorderBottomWidth(x) => d == PropertyDeclaration::BorderBottomWidth(x),
        AnimationValue::BorderLeftWidth(x) => d == PropertyDeclaration::BorderLeftWidth(x),
        AnimationValue::FontSize(x) => d == PropertyDeclaration::FontSize(x),
        AnimationValue::Clip(x) => d matches PropertyDeclaration::Clip(b) && *b == x,
        AnimationValue::Visibility(x) => d == PropertyDeclaration::Visibility(x),
        AnimationValue::ContentVisibility(x) => d == PropertyDeclaration::ContentVisibility(x),
        AnimationValue::BorderTopStyle(x) => d == PropertyDeclaration::BorderTopStyle(x),
        AnimationValue::Custom(c) => d == PropertyDeclaration::Custom(
            CustomDeclaration { name: c.name, value: CustomDeclarationValue::Value(c.value) },
        ),
    }
}

/// The style snapshot after an animated value is written back into it.
pub open spec fn style_with_value(v: AnimationValue, s: ComputedValues) -> ComputedValues {
    match v {
        AnimationValue::Opacity(x) => (ComputedValues { opacity: x, ..s }),
        AnimationValue::BorderTopWidth(x) => (ComputedValues { border_top_width: x, ..s }),
        AnimationValue::BorderRightWidth(x) => (ComputedValues { border_right_width: x, ..s }),
        AnimationValue::BorderBottomWidth(x) => (ComputedValues { border_bottom_width: x, ..s }),
        AnimationValue::BorderLeftWidth(x) => (ComputedValues { border_left_width: x, ..s }),
        AnimationValue::FontSize(x) => (ComputedValues { font_size: x, ..s }),
        AnimationValue::Clip(x) => (ComputedValues { clip: x, ..s }),
        AnimationValue::Visibility(x) => (ComputedValues { visibility: x, ..s }),
        AnimationValue::ContentVisibility(x) => (ComputedValues { content_visibility: x, ..s }),
        AnimationValue::BorderTopStyle(x) => (ComputedValues { border_top_style: x, ..s }),
        AnimationValue::Custom(_) => s,
    }
}

/// What a property identity reads out of a full style snapshot: the animated
/// value of an animatable, non-logical longhand, or a custom property
/// resolved through the two custom maps; nothing otherwise.
pub open spec fn from_computed_values_spec(
    property: OwnedPropertyDeclarationId,
    style: ComputedValues,
) -> Option<AnimationValue> {
    match property {
        OwnedPropertyDeclarationId::Longhand(id) => {
            if id.is_animatable() && !id.is_logical() {
                Some(read_longhand_spec(id, style))
            } else {
                None
            }
        },
        OwnedPropertyDeclarationId::Custom(name) => match style.custom_value_spec(name) {
            Some(v) => Some(AnimationValue::Custom(CustomAnimatedValue { name, value: v })),
            None => None,
        },
    }
}

impl AnimationValue {
    /// Constructs an animated value from a property declaration.
    ///
    /// A CSS-wide keyword resolves against the initial or the parent style
    /// per the property's inheritance class; a variable reference
    /// substitutes first — the substitution counts only where it declares
    /// the referencing longhand itself, and otherwise the declaration
    /// behaves as `unset` — and the substituted declaration converts; a
    /// custom declaration delegates to the custom-value constructor.  A
    /// declaration of a non-animatable or logical property converts to
    /// nothing, which is expected and non-fatal.  A conversion only ever
    /// yields a value tagged with the property the declaration declares.
    /// Reaching the value arm of an animatable property records in the
    /// context whether that property is non-inherited; the rest of the
    /// context is left unchanged.
    pub fn from_declaration(
        decl: &PropertyDeclaration,
        context: &mut Context,
        style: &ComputedValues,
        initial: &ComputedValues,
    ) -> (r: Option<AnimationValue>)
        requires
            old(context).wf(),
            decl.wf(),
            style.wf(),
            initial.wf(),
        ensures
            r == from_declaration_spec(*decl, *old(context), *initial),
            final(context).parent_style == old(context).parent_style,
            final(context).substitutions == old(context).substitutions,
            final(context).for_non_inherited_property == flag_after_spec(*decl, *old(context)),
            r matches Some(v) ==> v.wf(),
            r matches Some(v) ==> v.id_spec() == decl.declared_id(),
    {
        match decl {
            PropertyDeclaration::WithVariables(vd) => {
                let substituted = context.substitution(vd.name);
                let resolved: Option<PropertyDeclaration> = match substituted {
                    Some(sub) => match sub.declared_longhand() {
                        Some(id) => {
                            if id == vd.id {
                                Some(sub)
                            } else {
                                None
                            }
                        },
                        None => None,
                    },
                    None => None,
                };
                match resolved {
                    Some(sub) => Self::from_resolved_declaration(&sub, context, style, initial),
                    None => {
                        let unset = PropertyDeclaration::CSSWideKeyword(
                            WideKeywordDeclaration { id: vd.id, keyword: CSSWideKeyword::Unset },
                        );
                        Self::from_resolved_declaration(&unset, context, style, initial)
                    },
                }
            },
            _ => Self::from_resolved_declaration(decl, context, style, initial),
        }
    }

    /// Converts a declaration already free of variable references.
    fn from_resolved_declaration(
        decl: &PropertyDeclaration,
        context: &mut Context,
        style: &ComputedValues,
        initial: &ComputedValues,
    ) -> (r: Option<AnimationValue>)
        requires
            old(context).wf(),
            decl.wf(),
            style.wf(),
            initial.wf(),
            !(*decl is WithVariables),
        ensures
            r == from_resolved_declaration_spec(*decl, *old(context), *initial),
            final(context).parent_style == old(context).parent_style,
            final(context).substitutions == old(context).substitutions,
            final(context).for_non_inherited_property == flag_after_resolved_spec(
                *decl,
                *old(context),
            ),
            r matches Some(v) ==> v.wf(),
            r matches Some(v) ==> v.id_spec() == decl.declared_id(),
    {
        match decl {
            PropertyDeclaration::Opacity(v) => {
                context.for_non_inherited_property = true;
                Some(AnimationValue::Opacity(*v))
            },
            PropertyDeclaration::BorderTopWidth(v) => {
                context.for_non_inherited_property = true;
                Some(AnimationValue::BorderTopWidth(*v))
            },
            PropertyDeclaration::BorderRightWidth(v) => {
                context.for_non_inherited_property = true;
                Some(AnimationValue::BorderRightWidth(*v))
            },
            PropertyDeclaration::BorderBottomWidth(v) => {
                context.for_non_inherited_property = true;
                Some(AnimationValue::BorderBottomWidth(*v))
            },
            PropertyDeclaration::BorderLeftWidth(v) => {
                context.for_non_inherited_property = true;
                Some(AnimationValue::BorderLeftWidth(*v))
            },
            PropertyDeclaration::FontSize(v) => {
                context.for_non_inherited_property = false;
                Some(AnimationValue::FontSize(*v))
            },
            PropertyDeclaration::Clip(r) => {
                context.for_non_inherited_property = true;
                Some(AnimationValue::Clip(**r))
            },
            PropertyDeclaration::Visibility(v) => {
                context.for_non_inherited_property = false;
                Some(AnimationValue::Visibility(*v))
            },
            PropertyDeclaration::ContentVisibility(v) => {
                context.for_non_inherited_property = true;
                Some(AnimationValue::ContentVisibility(*v))
            },
            PropertyDeclaration::BorderTopStyle(v) => {
                context.for_non_inherited_property = true;
                Some(AnimationValue::BorderTopStyle(*v))
            },
            PropertyDeclaration::MarginInlineStart(_) => {
                context.for_non_inherited_property = true;
                None
            },
            PropertyDeclaration::Direction(_) => None,
            PropertyDeclaration::CSSWideKeyword(d) => {
                if !d.id.animatable() || d.id.logical() {
                    return None;
                }
                let from_initial = if d.id.inherited() {
                    matches!(d.keyword, CSSWideKeyword::Initial)
                } else {
                    !matches!(d.keyword, CSSWideKeyword::Inherit)
                };
                if from_initial {
                    Some(read_longhand(d.id, initial))
                } else {
                    Some(read_longhand(d.id, &context.parent_style))
                }
            },
            PropertyDeclaration::WithVariables(_) => unreached(),
            PropertyDeclaration::Custom(d) => match d.value {
                CustomDeclarationValue::Value(v) => Some(
                    AnimationValue::Custom(CustomAnimatedValue { name: d.name, value: v }),
                ),
                CustomDeclarationValue::CSSWideKeyword(_) => None,
            },
        }
    }

    /// Gets an animated value for a declaration id from a full style
    /// snapshot: a longhand reads its computed value directly; a custom
    /// property resolves by name, the inherited map before the non-inherited
    /// one, and yields nothing when absent from both.
    pub fn from_computed_values(
        property: &OwnedPropertyDeclarationId,
        style: &ComputedValues,
    ) -> (r: Option<AnimationValue>)
        requires
            style.wf(),
        ensures
            r == from_computed_values_spec(*property, *style),
            r matches Some(v) ==> v.wf(),
            r matches Some(v) ==> v.id_spec() == *property,
    {
        match property {
            OwnedPropertyDeclarationId::Longhand(id) => {
                if id.animatable() && !id.logical() {
                    Some(read_longhand(*id, style))
                } else {
                    None
                }
            },
            OwnedPropertyDeclarationId::Custom(name) => match style.custom_value(*name) {
                Some(v) => Some(
                    AnimationValue::Custom(CustomAnimatedValue { name: *name, value: v }),
                ),
                None => None,
            },
        }
    }

    /// "Uncomputes" the value into the declaration the cascade folds back
    /// in: the inverse of the value-to-animated transform, with the payload
    /// boxed where the catalog flags the longhand boxed.
    pub fn uncompute(&self) -> (r: PropertyDeclaration)
        ensures
            uncomputed_matches(*self, r),
            r.longhand_id() == match self.id_spec() {
                OwnedPropertyDeclarationId::Longhand(id) => Some(id),
                OwnedPropertyDeclarationId::Custom(_) => None::<LonghandId>,
            },
            self.wf() ==> r.wf(),
    {
        match self {
            AnimationValue::Opacity(v) => PropertyDeclaration::Opacity(*v),
            AnimationValue::BorderTopWidth(v) => PropertyDeclaration::BorderTopWidth(*v),
            AnimationValue::BorderRightWidth(v) => PropertyDeclaration::BorderRightWidth(*v),
            AnimationValue::BorderBottomWidth(v) => PropertyDeclaration::BorderBottomWidth(*v),
            AnimationValue::BorderLeftWidth(v) => PropertyDeclaration::BorderLeftWidth(*v),
            AnimationValue::FontSize(v) => PropertyDeclaration::FontSize(*v),
            AnimationValue::Clip(r) => PropertyDeclaration::Clip(Box::new(*r)),
            AnimationValue::Visibility(v) => PropertyDeclaration::Visibility(*v),
            AnimationValue::ContentVisibility(v) => PropertyDeclaration::ContentVisibility(*v),
            AnimationValue::BorderTopStyle(v) => PropertyDeclaration::BorderTopStyle(*v),
            AnimationValue::Custom(c) => PropertyDeclaration::Custom(
                CustomDeclaration {
                    name: c.name,
                    value: CustomDeclarationValue::Value(c.value),
                },
            ),
        }
    }

    /// Updates `style` in place with this value, through the property's
    /// setter.  Only the platform that permits direct style mutation calls
    /// this; a custom property is never written this way.
    pub fn set_in_style_for_servo(&self, style: &mut ComputedValues)
        requires
            !(*self is Custom),
        ensures
            *final(style) == style_with_value(*self, *old(style)),
    {
        match self {
            AnimationValue::Opacity(v) => {
                style.opacity = *v;
            },
            AnimationValue::BorderTopWidth(v) => {
                style.border_top_width = *v;
            },
            AnimationValue::BorderRightWidth(v) => {
                style.border_right_width = *v;
            },
            AnimationValue::BorderBottomWidth(v) => {
                style.border_bottom_width = *v;
            },
            AnimationValue::BorderLeftWidth(v) => {
                style.border_left_width = *v;
            },
            AnimationValue::FontSize(v) => {
                style.font_size = *v;
            },
            AnimationValue::Clip(r) => {
                style.clip = *r;
            },
            AnimationValue::Visibility(v) => {
                style.visibility = *v;
            },
            AnimationValue::ContentVisibility(v) => {
                style.content_visibility = *v;
            },
            AnimationValue::BorderTopStyle(v) => {
                style.border_top_style = *v;
            },
            AnimationValue::Custom(_) => unreached(),
        }
    }
}

/// Conversion round-trip: a non-custom, non-variable declaration that
/// converts to an animated value converts to the same value again after
/// `uncompute`, whatever context and initial style stand around the second
/// conversion.
pub proof fn lemma_conversion_round_trip(
    d: PropertyDeclaration,
    c1: Context,
    c2: Context,
    initial1: ComputedValues,
    initial2: ComputedValues,
    v: AnimationValue,
    u: PropertyDeclaration,
)
    requires
        !(d is WithVariables),
        !(d is Custom),
        from_declaration_spec(d, c1, initial1) == Some(v),
        uncomputed_matches(v, u),
    ensures
        from_declaration_spec(u, c2, initial2) == Some(v),
{
}

} // verus!
