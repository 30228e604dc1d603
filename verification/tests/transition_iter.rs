//! The transition-property iterator, and the two external collaborators.

use animated_style::angle::{Context as GlContext, CreationError};
use animated_style::catalog::{
    Atom, LonghandId, NonCustomPropertyId, OwnedPropertyDeclarationId, ShorthandId,
    TransitionProperty, VariableValue,
};
use animated_style::payloads::{
    BorderStyle, ClipRect, ContentVisibility, Direction, LengthOrAuto, Visibility,
};
use animated_style::ping::{ping_api_allowed, ping_process, submit_action, PingProcess, SubmitAction};
use animated_style::style::ComputedValues;
use animated_style::iterator::TransitionPropertyIterator;

fn style_with_transitions(list: Vec<TransitionProperty>) -> ComputedValues {
    ComputedValues {
        opacity: 0,
        border_top_width: 0,
        border_right_width: 0,
        border_bottom_width: 0,
        border_left_width: 0,
        font_size: 0,
        clip: ClipRect {
            top: LengthOrAuto::Auto,
            right: LengthOrAuto::Auto,
            bottom: LengthOrAuto::Auto,
            left: LengthOrAuto::Auto,
        },
        visibility: Visibility::Visible,
        content_visibility: ContentVisibility::Visible,
        border_top_style: BorderStyle::Solid,
        margin_inline_start: 0,
        direction: Direction::Ltr,
        custom_inherited: vec![],
        custom_non_inherited: vec![],
        transition_properties: list,
    }
}

#[test]
fn shorthand_expansion_preserves_list_indices() {
    // [border-width (a shorthand of four longhands), opacity] expands to
    // five iterations: the first four carry list index 0, the last index 1.
    let style = style_with_transitions(vec![
        TransitionProperty::NonCustom(NonCustomPropertyId::Shorthand(ShorthandId::BorderWidth)),
        TransitionProperty::NonCustom(NonCustomPropertyId::Longhand(LonghandId::Opacity)),
    ]);
    let mut iter = TransitionPropertyIterator::from_style(&style);
    let mut seen = Vec::new();
    while let Some(iteration) = iter.next() {
        seen.push((iteration.property, iteration.index));
    }
    assert_eq!(
        seen,
        vec![
            (OwnedPropertyDeclarationId::Longhand(LonghandId::BorderTopWidth), 0),
            (OwnedPropertyDeclarationId::Longhand(LonghandId::BorderRightWidth), 0),
            (OwnedPropertyDeclarationId::Longhand(LonghandId::BorderBottomWidth), 0),
            (OwnedPropertyDeclarationId::Longhand(LonghandId::BorderLeftWidth), 0),
            (OwnedPropertyDeclarationId::Longhand(LonghandId::Opacity), 1),
        ]
    );
}

#[test]
fn custom_entries_yield_and_unsupported_entries_skip() {
    let style = style_with_transitions(vec![
        TransitionProperty::Unsupported(Atom(40)),
        TransitionProperty::Custom(Atom(41)),
        TransitionProperty::Unsupported(Atom(42)),
        TransitionProperty::NonCustom(NonCustomPropertyId::Longhand(LonghandId::Visibility)),
    ]);
    let mut iter = TransitionPropertyIterator::from_style(&style);
    let first = iter.next().unwrap();
    assert_eq!(first.property, OwnedPropertyDeclarationId::Custom(Atom(41)));
    assert_eq!(first.index, 1);
    let second = iter.next().unwrap();
    assert_eq!(second.property, OwnedPropertyDeclarationId::Longhand(LonghandId::Visibility));
    assert_eq!(second.index, 3);
    assert!(iter.next().is_none());
    // Exhausted for good: the iterator is single-pass.
    assert!(iter.next().is_none());
}

#[test]
fn empty_transition_list_yields_nothing() {
    let style = style_with_transitions(vec![]);
    let mut iter = TransitionPropertyIterator::from_style(&style);
    assert!(iter.next().is_none());
}

#[test]
fn rendering_context_creation_is_unsupported_here() {
    // The sibling platform collaborator: on a platform without the backend,
    // construction fails immediately with the fixed failure.
    assert_eq!(
        GlContext::with_window(false).err(),
        Some(CreationError::UnsupportedPlatform)
    );
    assert_eq!(
        GlContext::with_window(true).err(),
        Some(CreationError::UnsupportedPlatform)
    );
}

#[test]
fn ping_decisions_follow_the_process_kind() {
    assert_eq!(ping_process(true), PingProcess::Child);
    assert_eq!(ping_process(false), PingProcess::Parent);
    assert_eq!(submit_action(PingProcess::Parent, false), SubmitAction::Deliver);
    assert_eq!(submit_action(PingProcess::Parent, true), SubmitAction::Deliver);
    assert_eq!(submit_action(PingProcess::Child, false), SubmitAction::DiscardWithError);
    assert_eq!(submit_action(PingProcess::Child, true), SubmitAction::Abort);
    assert!(ping_api_allowed(PingProcess::Parent));
    assert!(!ping_api_allowed(PingProcess::Child));
}

#[test]
fn custom_value_atoms_compare_by_identity() {
    assert_eq!(Atom(3), Atom(3));
    assert_ne!(Atom(3), Atom(4));
    assert_eq!(VariableValue(3), VariableValue(3));
    assert_ne!(VariableValue(3), VariableValue(4));
}
