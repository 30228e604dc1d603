//! The property catalog: identities, flags and grouping of every longhand.
//!
//! The catalog is fixed at build time: the variant order of [`LonghandId`]
//! is the stable total order of the properties, and every flag below is a
//! pure table lookup.  Custom properties are identified by an interned
//! [`Atom`] rather than a catalog id.

use vstd::prelude::*;

verus! {

/// An interned identifier: a custom-property name.
#[derive(Clone, Copy, Debug, PartialEq, Eq, Structural)]
pub struct Atom(pub u64);

/// An interned custom-property value: the token stream a custom property
/// holds, compared only for identity.
#[derive(Clone, Copy, Debug, PartialEq, Eq, Structural)]
pub struct VariableValue(pub u64);

/// One longhand property of the catalog.
#[derive(Clone, Copy, Debug, PartialEq, Eq, Structural)]
pub enum LonghandId {
    Opacity,
    BorderTopWidth,
    BorderRightWidth,
    BorderBottomWidth,
    BorderLeftWidth,
    FontSize,
    Clip,
    Visibility,
    ContentVisibility,
    BorderTopStyle,
    MarginInlineStart,
    Direction,
}

/// One shorthand property of the catalog.
#[derive(Clone, Copy, Debug, PartialEq, Eq, Structural)]
pub enum ShorthandId {
    BorderWidth,
}

/// A longhand or a shorthand: any non-custom property.
#[derive(Clone, Copy, Debug, PartialEq, Eq, Structural)]
pub enum NonCustomPropertyId {
    Longhand(LonghandId),
    Shorthand(ShorthandId),
}

/// A property identity as a declaration carries it: a catalog longhand, or a
/// custom property under its interned name.
#[derive(Clone, Copy, Debug, PartialEq, Eq, Structural)]
pub enum OwnedPropertyDeclarationId {
    Longhand(LonghandId),
    Custom(Atom),
}

/// One entry of a style's transition-property list.
#[derive(Clone, Copy, Debug, PartialEq, Eq, Structural)]
pub enum TransitionProperty {
    NonCustom(NonCustomPropertyId),
    Custom(Atom),
    Unsupported(Atom),
}

/// A group of properties sharing one payload type and one set of animation
/// semantics.  The grouping only shares dispatch code; callers never observe
/// it.
#[derive(Clone, Copy, Debug, PartialEq, Eq, Structural)]
pub enum PropertyGroup {
    /// A plain fixed-point number, such as an opacity.
    PlainNumber,
    /// A fixed-point length.
    Length,
    /// A rectangle of length-or-auto edges.
    Rect,
    /// The `visibility` keyword set with its dominant-`Visible` blend.
    VisibilityKeyword,
    /// The `content-visibility` keyword set with its dominant-`Hidden` blend.
    ContentVisibilityKeyword,
    /// A discrete keyword set that flips at half progress.
    DiscreteKeyword,
}

impl LonghandId {
    /// Whether continuous or discrete interpolation is defined for the
    /// property.
    pub open spec fn is_animatable(self) -> bool {
        !(self is Direction)
    }

    /// Whether the property is direction-relative and resolves to a physical
    /// longhand before animation.
    pub open spec fn is_logical(self) -> bool {
        self is MarginInlineStart
    }

    /// Whether the property animates discretely, flipping at half progress.
    pub open spec fn is_discrete(self) -> bool {
        self is BorderTopStyle
    }

    /// Whether the property inherits from the parent style.
    pub open spec fn is_inherited(self) -> bool {
        self is FontSize || self is Visibility || self is Direction
    }

    /// Whether a declaration of the property carries its payload boxed.
    pub open spec fn is_boxed(self) -> bool {
        self is Clip
    }

    /// The property's group, where it is animatable and non-logical.
    pub open spec fn group_spec(self) -> Option<PropertyGroup> {
        match self {
            LonghandId::Opacity => Some(PropertyGroup::PlainNumber),
            LonghandId::BorderTopWidth => Some(PropertyGroup::Length),
            LonghandId::BorderRightWidth => Some(PropertyGroup::Length),
            LonghandId::BorderBottomWidth => Some(PropertyGroup::Length),
            LonghandId::BorderLeftWidth => Some(PropertyGroup::Length),
            LonghandId::FontSize => Some(PropertyGroup::Length),
            LonghandId::Clip => Some(PropertyGroup::Rect),
            LonghandId::Visibility => Some(PropertyGroup::VisibilityKeyword),
            LonghandId::ContentVisibility => Some(PropertyGroup::ContentVisibilityKeyword),
            LonghandId::BorderTopStyle => Some(PropertyGroup::DiscreteKeyword),
            LonghandId::MarginInlineStart => None,
            LonghandId::Direction => None,
        }
    }

    /// The property's place in the catalog's stable total order.
    pub open spec fn index_spec(self) -> u16 {
        match self {
            LonghandId::Opacity => 0u16,
            LonghandId::BorderTopWidth => 1u16,
            LonghandId::BorderRightWidth => 2u16,
            LonghandId::BorderBottomWidth => 3u16,
            LonghandId::BorderLeftWidth => 4u16,
            LonghandId::FontSize => 5u16,
            LonghandId::Clip => 6u16,
            LonghandId::Visibility => 7u16,
            LonghandId::ContentVisibility => 8u16,
            LonghandId::BorderTopStyle => 9u16,
            LonghandId::MarginInlineStart => 10u16,
            LonghandId::Direction => 11u16,
        }
    }

    /// Whether continuous or discrete interpolation is defined for the
    /// property.
    pub fn animatable(self) -> (b: bool)
        ensures
            b == self.is_animatable(),
    {
        !matches!(self, LonghandId::Direction)
    }

    /// Whether the property is direction-relative.
    pub fn logical(self) -> (b: bool)
        ensures
            b == self.is_logical(),
    {
        matches!(self, LonghandId::MarginInlineStart)
    }

    /// Whether the property animates discretely.
    pub fn discrete(self) -> (b: bool)
        ensures
            b == self.is_discrete(),
    {
        matches!(self, LonghandId::BorderTopStyle)
    }

    /// Whether the property inherits from the parent style.
    pub fn inherited(self) -> (b: bool)
        ensures
            b == self.is_inherited(),
    {
        matches!(self, LonghandId::FontSize | LonghandId::Visibility | LonghandId::Direction)
    }

    /// Whether a declaration of the property carries its payload boxed.
    pub fn boxed(self) -> (b: bool)
        ensures
            b == self.is_boxed(),
    {
        matches!(self, LonghandId::Clip)
    }

    /// Looks the property's group up; `None` for a property excluded from
    /// animation.
    pub fn group(self) -> (g: Option<PropertyGroup>)
        ensures
            g == self.group_spec(),
            g is Some <==> self.is_animatable() && !self.is_logical(),
    {
        match self {
            LonghandId::Opacity => Some(PropertyGroup::PlainNumber),
            LonghandId::BorderTopWidth => Some(PropertyGroup::Length),
            LonghandId::BorderRightWidth => Some(PropertyGroup::Length),
            LonghandId::BorderBottomWidth => Some(PropertyGroup::Length),
            LonghandId::BorderLeftWidth => Some(PropertyGroup::Length),
            LonghandId::FontSize => Some(PropertyGroup::Length),
            LonghandId::Clip => Some(PropertyGroup::Rect),
            LonghandId::Visibility => Some(PropertyGroup::VisibilityKeyword),
            LonghandId::ContentVisibility => Some(PropertyGroup::ContentVisibilityKeyword),
            LonghandId::BorderTopStyle => Some(PropertyGroup::DiscreteKeyword),
            LonghandId::MarginInlineStart => None,
            LonghandId::Direction => None,
        }
    }

    /// The property's place in the catalog's stable total order.
    pub fn property_index(self) -> (i: u16)
        ensures
            i == self.index_spec(),
    {
        match self {
            LonghandId::Opacity => 0,
            LonghandId::BorderTopWidth => 1,
            LonghandId::BorderRightWidth => 2,
            LonghandId::BorderBottomWidth => 3,
            LonghandId::BorderLeftWidth => 4,
            LonghandId::FontSize => 5,
            LonghandId::Clip => 6,
            LonghandId::Visibility => 7,
            LonghandId::ContentVisibility => 8,
            LonghandId::BorderTopStyle => 9,
            LonghandId::MarginInlineStart => 10,
            LonghandId::Direction => 11,
        }
    }
}

/// The animatable, non-logical longhands in catalog order.
pub open spec fn animated_longhand_order() -> Seq<LonghandId> {
    seq![
        LonghandId::Opacity,
        LonghandId::BorderTopWidth,
        LonghandId::BorderRightWidth,
        LonghandId::BorderBottomWidth,
        LonghandId::BorderLeftWidth,
        LonghandId::FontSize,
        LonghandId::Clip,
        LonghandId::Visibility,
        LonghandId::ContentVisibility,
        LonghandId::BorderTopStyle,
    ]
}

/// Enumerates the animatable, non-logical longhands in catalog order, for
/// callers needing exhaustive iteration.
pub fn animated_longhands() -> (r: Vec<LonghandId>)
    ensures
        r@ == animated_longhand_order(),
{
    let mut r: Vec<LonghandId> = Vec::new();
    r.push(LonghandId::Opacity);
    r.push(LonghandId::BorderTopWidth);
    r.push(LonghandId::BorderRightWidth);
    r.push(LonghandId::BorderBottomWidth);
    r.push(LonghandId::BorderLeftWidth);
    r.push(LonghandId::FontSize);
    r.push(LonghandId::Clip);
    r.push(LonghandId::Visibility);
    r.push(LonghandId::ContentVisibility);
    r.push(LonghandId::BorderTopStyle);
    proof {
        assert(r@ =~= animated_longhand_order());
    }
    r
}

/// The longhands a shorthand expands to, in declaration order.
pub open spec fn shorthand_longhand_order(id: ShorthandId) -> Seq<LonghandId> {
    match id {
        ShorthandId::BorderWidth => seq![
            LonghandId::BorderTopWidth,
            LonghandId::BorderRightWidth,
            LonghandId::BorderBottomWidth,
            LonghandId::BorderLeftWidth,
        ],
    }
}

impl ShorthandId {
    /// Expands the shorthand into its constituent longhands.
    pub fn longhands(self) -> (r: Vec<LonghandId>)
        ensures
            r@ == shorthand_longhand_order(self),
    {
        let mut r: Vec<LonghandId> = Vec::new();
        match self {
            ShorthandId::BorderWidth => {
                r.push(LonghandId::BorderTopWidth);
                r.push(LonghandId::BorderRightWidth);
                r.push(LonghandId::BorderBottomWidth);
                r.push(LonghandId::BorderLeftWidth);
            },
        }
        proof {
            assert(r@ =~= shorthand_longhand_order(self));
        }
        r
    }
}

impl NonCustomPropertyId {
    /// Splits the identity into a longhand or the shorthand it stands for.
    pub fn longhand_or_shorthand(self) -> (r: Result<LonghandId, ShorthandId>)
        ensures
            self matches NonCustomPropertyId::Longhand(id) ==> r == Result::<
                LonghandId,
                ShorthandId,
            >::Ok(id),
            self matches NonCustomPropertyId::Shorthand(id) ==> r == Result::<
                LonghandId,
                ShorthandId,
            >::Err(id),
    {
        match self {
            NonCustomPropertyId::Longhand(id) => Ok(id),
            NonCustomPropertyId::Shorthand(id) => Err(id),
        }
    }
}

} // verus!
