//! Declarations: the cascade-facing form of one property's specified value.
//!
//! Beside one variant per catalog longhand, a declaration can be a CSS-wide
//! keyword, an unresolved variable reference awaiting substitution, or a
//! custom-property declaration.  A longhand whose catalog entry is flagged
//! boxed carries its payload behind a `Box`.

use vstd::prelude::*;
use crate::animate::scalar_wf;
use crate::catalog::{Atom, LonghandId, OwnedPropertyDeclarationId, VariableValue};
use crate::payloads::{BorderStyle, ClipRect, ContentVisibility, Direction, Visibility};

verus! {

/// One of the five CSS-wide keywords.
#[derive(Clone, Copy, Debug, PartialEq, Eq, Structural)]
pub enum CSSWideKeyword {
    Initial,
    Inherit,
    Unset,
    Revert,
    RevertLayer,
}

/// A CSS-wide keyword declared on a longhand.
#[derive(Clone, Copy, Debug, PartialEq, Eq, Structural)]
pub struct WideKeywordDeclaration {
    pub id: LonghandId,
    pub keyword: CSSWideKeyword,
}

/// An unresolved variable reference on a longhand: the declaration still
/// names the custom property it draws its value from.
#[derive(Clone, Copy, Debug, PartialEq, Eq, Structural)]
pub struct VariableDeclaration {
    pub id: LonghandId,
    pub name: Atom,
}

/// The value of a custom-property declaration: a token stream, or a CSS-wide
/// keyword.
#[derive(Clone, Copy, Debug, PartialEq, Eq, Structural)]
pub enum CustomDeclarationValue {
    Value(VariableValue),
    CSSWideKeyword(CSSWideKeyword),
}

/// A custom-property declaration under its interned name.
#[derive(Clone, Copy, Debug, PartialEq, Eq, Structural)]
pub struct CustomDeclaration {
    pub name: Atom,
    pub value: CustomDeclarationValue,
}

/// One property's specified value as the cascade hands it over.
#[derive(Debug, PartialEq)]
pub enum PropertyDeclaration {
    /// `opacity`
    Opacity(i64),
    /// `border-top-width`
    BorderTopWidth(i64),
    /// `border-right-width`
    BorderRightWidth(i64),
    /// `border-bottom-width`
    BorderBottomWidth(i64),
    /// `border-left-width`
    BorderLeftWidth(i64),
    /// `font-size`
    FontSize(i64),
    /// `clip`, boxed per the catalog's boxing flag
    Clip(Box<ClipRect>),
    /// `visibility`
    Visibility(Visibility),
    /// `content-visibility`
    ContentVisibility(ContentVisibility),
    /// `border-top-style`
    BorderTopStyle(BorderStyle),
    /// `margin-inline-start`, a logical longhand
    MarginInlineStart(i64),
    /// `direction`, a non-animatable longhand
    Direction(Direction),
    /// A CSS-wide keyword on any longhand.
    CSSWideKeyword(WideKeywordDeclaration),
    /// An unresolved variable reference on a longhand.
    WithVariables(VariableDeclaration),
    /// A custom-property declaration.
    Custom(CustomDeclaration),
}

impl PropertyDeclaration {
    /// The longhand the declaration belongs to, where it is not a custom
    /// declaration.
    pub open spec fn longhand_id(self) -> Option<LonghandId> {
        match self {
            PropertyDeclaration::Opacity(_) => Some(LonghandId::Opacity),
            PropertyDeclaration::BorderTopWidth(_) => Some(LonghandId::BorderTopWidth),
            PropertyDeclaration::BorderRightWidth(_) => Some(LonghandId::BorderRightWidth),
            PropertyDeclaration::BorderBottomWidth(_) => Some(LonghandId::BorderBottomWidth),
            PropertyDeclaration::BorderLeftWidth(_) => Some(LonghandId::BorderLeftWidth),
            PropertyDeclaration::FontSize(_) => Some(LonghandId::FontSize),
            PropertyDeclaration::Clip(_) => Some(LonghandId::Clip),
            PropertyDeclaration::Visibility(_) => Some(LonghandId::Visibility),
            PropertyDeclaration::ContentVisibility(_) => Some(LonghandId::ContentVisibility),
            PropertyDeclaration::BorderTopStyle(_) => Some(LonghandId::BorderTopStyle),
            PropertyDeclaration::MarginInlineStart(_) => Some(LonghandId::MarginInlineStart),
            PropertyDeclaration::Direction(_) => Some(LonghandId::Direction),
            PropertyDeclaration::CSSWideKeyword(d) => Some(d.id),
            PropertyDeclaration::WithVariables(d) => Some(d.id),
            PropertyDeclaration::Custom(_) => None,
        }
    }

    /// The property identity the declaration declares: its longhand, or the
    /// custom name.
    pub open spec fn declared_id(self) -> OwnedPropertyDeclarationId {
        match self {
            PropertyDeclaration::Custom(d) => OwnedPropertyDeclarationId::Custom(d.name),
            _ => match self.longhand_id() {
                Some(id) => OwnedPropertyDeclarationId::Longhand(id),
                // Unreachable: every non-custom declaration names its longhand.
                None => OwnedPropertyDeclarationId::Longhand(LonghandId::Opacity),
            },
        }
    }

    /// The longhand the declaration belongs to, where it is not a custom
    /// declaration.
    pub fn declared_longhand(&self) -> (r: Option<LonghandId>)
        ensures
            r == self.longhand_id(),
    {
        match self {
            PropertyDeclaration::Opacity(_) => Some(LonghandId::Opacity),
            PropertyDeclaration::BorderTopWidth(_) => Some(LonghandId::BorderTopWidth),
            PropertyDeclaration::BorderRightWidth(_) => Some(LonghandId::BorderRightWidth),
            PropertyDeclaration::BorderBottomWidth(_) => Some(LonghandId::BorderBottomWidth),
            PropertyDeclaration::BorderLeftWidth(_) => Some(LonghandId::BorderLeftWidth),
            PropertyDeclaration::FontSize(_) => Some(LonghandId::FontSize),
            PropertyDeclaration::Clip(_) => Some(LonghandId::Clip),
            PropertyDeclaration::Visibility(_) => Some(LonghandId::Visibility),
            PropertyDeclaration::ContentVisibility(_) => Some(LonghandId::ContentVisibility),
            PropertyDeclaration::BorderTopStyle(_) => Some(LonghandId::BorderTopStyle),
            PropertyDeclaration::MarginInlineStart(_) => Some(LonghandId::MarginInlineStart),
            PropertyDeclaration::Direction(_) => Some(LonghandId::Direction),
            PropertyDeclaration::CSSWideKeyword(d) => Some(d.id),
            PropertyDeclaration::WithVariables(d) => Some(d.id),
            PropertyDeclaration::Custom(_) => None,
        }
    }

    /// A bounded declaration: every scalar payload is inside the fixed-point
    /// range the arithmetic accepts.
    pub open spec fn wf(self) -> bool {
        match self {
            PropertyDeclaration::Opacity(v) => scalar_wf(v as int),
            PropertyDeclaration::BorderTopWidth(v) => scalar_wf(v as int),
            PropertyDeclaration::BorderRightWidth(v) => scalar_wf(v as int),
            PropertyDeclaration::BorderBottomWidth(v) => scalar_wf(v as int),
            PropertyDeclaration::BorderLeftWidth(v) => scalar_wf(v as int),
            PropertyDeclaration::FontSize(v) => scalar_wf(v as int),
            PropertyDeclaration::Clip(r) => r.wf(),
            PropertyDeclaration::MarginInlineStart(v) => scalar_wf(v as int),
            _ => true,
        }
    }
}

impl Clone for PropertyDeclaration {
    /// A value-preserving duplicate of the declaration.
    fn clone(&self) -> (r: PropertyDeclaration)
        ensures
            r == *self,
    {
        match self {
            PropertyDeclaration::Opacity(v) => PropertyDeclaration::Opacity(*v),
            PropertyDeclaration::BorderTopWidth(v) => PropertyDeclaration::BorderTopWidth(*v),
            PropertyDeclaration::BorderRightWidth(v) => PropertyDeclaration::BorderRightWidth(*v),
            PropertyDeclaration::BorderBottomWidth(v) => PropertyDeclaration::BorderBottomWidth(*v),
            PropertyDeclaration::BorderLeftWidth(v) => PropertyDeclaration::BorderLeftWidth(*v),
            PropertyDeclaration::FontSize(v) => PropertyDeclaration::FontSize(*v),
            PropertyDeclaration::Clip(r) => PropertyDeclaration::Clip(Box::new(**r)),
            PropertyDeclaration::Visibility(v) => PropertyDeclaration::Visibility(*v),
            PropertyDeclaration::ContentVisibility(v) => PropertyDeclaration::ContentVisibility(*v),
            PropertyDeclaration::BorderTopStyle(v) => PropertyDeclaration::BorderTopStyle(*v),
            PropertyDeclaration::MarginInlineStart(v) => PropertyDeclaration::MarginInlineStart(*v),
            PropertyDeclaration::Direction(v) => PropertyDeclaration::Direction(*v),
            PropertyDeclaration::CSSWideKeyword(d) => PropertyDeclaration::CSSWideKeyword(*d),
            PropertyDeclaration::WithVariables(d) => PropertyDeclaration::WithVariables(*d),
            PropertyDeclaration::Custom(d) => PropertyDeclaration::Custom(*d),
        }
    }
}

} // verus!
