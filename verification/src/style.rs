//! Style snapshots and the evaluation context of the conversion layer.
//!
//! A [`ComputedValues`] is a full-style snapshot: one computed payload per
//! catalog longhand, the two custom-property maps, and the declared
//! transition-property list.  A [`Context`] carries what conversion needs
//! beside the snapshot itself: the parent style (for inheritance) and the
//! declarations that variable substitution yields per custom-property name.

use vstd::prelude::*;
use crate::animate::scalar_wf;
use crate::catalog::{Atom, TransitionProperty, VariableValue};
use crate::declaration::PropertyDeclaration;
use crate::payloads::{BorderStyle, ClipRect, ContentVisibility, Direction, Visibility};

verus! {

/// First-match lookup in an association list.
pub open spec fn assoc_find<V>(entries: Seq<(Atom, V)>, name: Atom) -> Option<V>
    decreases entries.len(),
{
    if entries.len() == 0 {
        None
    } else if entries[0].0 == name {
        Some(entries[0].1)
    } else {
        assoc_find(entries.skip(1), name)
    }
}

/// Finds the first value bound to `name` in an association list of interned
/// values.
pub fn find_variable(entries: &Vec<(Atom, VariableValue)>, name: Atom) -> (r: Option<VariableValue>)
    ensures
        r == assoc_find(entries@, name),
{
    let ghost all = entries@;
    proof {
        assert(all.skip(0) =~= all);
    }
    let mut i: usize = 0;
    while i < entries.len()
        invariant
            0 <= i <= entries.len(),
            all == entries@,
            assoc_find(all, name) == assoc_find(all.skip(i as int), name),
        decreases entries.len() - i,
    {
        proof {
            assert(all.skip(i as int)[0] == entries@[i as int]);
            assert(all.skip(i as int).skip(1) =~= all.skip(i + 1));
        }
        if entries[i].0 == name {
            return Some(entries[i].1);
        }
        i = i + 1;
    }
    proof {
        assert(all.skip(i as int).len() == 0);
    }
    None
}

/// An opaque full-style snapshot: the computed value of every catalog
/// longhand, the custom-property maps, and the transition-property list.
#[derive(Clone, Debug, PartialEq)]
pub struct ComputedValues {
    pub opacity: i64,
    pub border_top_width: i64,
    pub border_right_width: i64,
    pub border_bottom_width: i64,
    pub border_left_width: i64,
    pub font_size: i64,
    pub clip: ClipRect,
    pub visibility: Visibility,
    pub content_visibility: ContentVisibility,
    pub border_top_style: BorderStyle,
    pub margin_inline_start: i64,
    pub direction: Direction,
    /// Custom properties that inherit, by interned name.
    pub custom_inherited: Vec<(Atom, VariableValue)>,
    /// Custom properties that do not inherit, by interned name.
    pub custom_non_inherited: Vec<(Atom, VariableValue)>,
    /// The style's declared transition-property list.
    pub transition_properties: Vec<TransitionProperty>,
}

impl ComputedValues {
    /// A bounded snapshot: every scalar payload is inside the fixed-point
    /// range the arithmetic accepts.
    pub open spec fn wf(self) -> bool {
        &&& scalar_wf(self.opacity as int)
        &&& scalar_wf(self.border_top_width as int)
        &&& scalar_wf(self.border_right_width as int)
        &&& scalar_wf(self.border_bottom_width as int)
        &&& scalar_wf(self.border_left_width as int)
        &&& scalar_wf(self.font_size as int)
        &&& self.clip.wf()
        &&& scalar_wf(self.margin_inline_start as int)
    }

    /// Resolves a custom property by name: the inherited map first, then the
    /// non-inherited one.
    pub open spec fn custom_value_spec(self, name: Atom) -> Option<VariableValue> {
        match assoc_find(self.custom_inherited@, name) {
            Some(v) => Some(v),
            None => assoc_find(self.custom_non_inherited@, name),
        }
    }

    /// Resolves a custom property by name, checking the inherited map before
    /// the non-inherited one.
    pub fn custom_value(&self, name: Atom) -> (r: Option<VariableValue>)
        ensures
            r == self.custom_value_spec(name),
    {
        match find_variable(&self.custom_inherited, name) {
            Some(v) => Some(v),
            None => find_variable(&self.custom_non_inherited, name),
        }
    }
}

/// The evaluation context of the conversion layer.
pub struct Context {
    /// The parent style, read when a CSS-wide keyword resolves to `inherit`.
    pub parent_style: ComputedValues,
    /// What variable substitution yields for each custom-property name: the
    /// substituted declaration the cascade's substitution machinery computed.
    /// A name absent here is invalid at computed-value time.
    pub substitutions: Vec<(Atom, PropertyDeclaration)>,
    /// Set while converting a declaration of a non-inherited property.
    pub for_non_inherited_property: bool,
}

impl Context {
    /// A usable context: the parent style is bounded and every substituted
    /// declaration is itself bounded and already free of variable
    /// references.
    pub open spec fn wf(self) -> bool {
        &&& self.parent_style.wf()
        &&& forall|i: int|
            0 <= i < self.substitutions@.len() ==> (#[trigger] self.substitutions@[i].1).wf()
                && !(self.substitutions@[i].1 is WithVariables)
    }

    /// What variable substitution yields for `name`.
    pub open spec fn substitution_spec(self, name: Atom) -> Option<PropertyDeclaration> {
        assoc_find(self.substitutions@, name)
    }

    /// Looks the substitution for `name` up.
    pub fn substitution(&self, name: Atom) -> (r: Option<PropertyDeclaration>)
        ensures
            r == self.substitution_spec(name),
            self.wf() ==> (r matches Some(d) ==> d.wf() && !(d is WithVariables)),
    {
        let ghost all = self.substitutions@;
        proof {
            assert(all.skip(0) =~= all);
        }
        let mut i: usize = 0;
        while i < self.substitutions.len()
            invariant
                0 <= i <= self.substitutions.len(),
                all == self.substitutions@,
                assoc_find(all, name) == assoc_find(all.skip(i as int), name),
            decreases self.substitutions.len() - i,
        {
            proof {
                assert(all.skip(i as int)[0] == self.substitutions@[i as int]);
                assert(all.skip(i as int).skip(1) =~= all.skip(i + 1));
            }
            if self.substitutions[i].0 == name {
                return Some(self.substitutions[i].1.clone());
            }
            i = i + 1;
        }
        proof {
            assert(all.skip(i as int).len() == 0);
        }
        None
    }
}

} // verus!
