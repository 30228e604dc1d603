//! Animated-value algebra of a style engine.
//!
//! A closed, catalog-driven representation of the animatable longhand
//! properties: declared values are converted into a compact
//! `value::AnimationValue`, interpolated, measured and zeroed, and converted
//! back into declarations.  The property catalog is fixed at build time and
//! only animatable, non-logical longhands have a constructible variant, so an
//! invalid conversion is ruled out by the type system rather than caught at
//! run time.
//!
//! Two external collaborators sit beside the core and are specified only by
//! their contracts: a platform rendering-context constructor (`angle`) and a
//! telemetry-ping wrapper (`ping`).

pub mod angle;
pub mod animate;
pub mod catalog;
pub mod conversion;
pub mod declaration;
pub mod iterator;
pub mod payloads;
pub mod ping;
pub mod style;
pub mod value;
