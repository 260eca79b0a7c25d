//! A collection of small things that don't deserve their own crate.
//!
//! The largest of them derives a payload-free shadow of an annotated enum
//! declaration: [`strip_enum`] and the modules it is made of
//! ([`directive`], [`extraction`], [`selection`], [`naming`],
//! [`metadata`]), with the laws of the transformation in [`laws`]. Beside
//! it stand a fixed-capacity string ([`sized_string`]), the parameters of a
//! derived constructor ([`new`]), the unit of a timed function
//! ([`time_fn`]), lock mapping ([`traits`]) and network connectivity flags
//! ([`win`]).

pub mod declaration;
pub mod diagnostic;
pub mod directive;
pub mod extraction;
pub mod laws;
pub mod metadata;
pub mod naming;
pub mod network;
pub mod new;
pub mod selection;
pub mod sized_string;
pub mod strip_enum;
pub mod syntax;
pub mod text;
pub mod time_fn;
pub mod traits;
pub mod win;
