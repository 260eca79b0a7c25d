//! Located failures of the transformation.
//!
//! The transformation is fail-fast: the first fatal condition ends it, and
//! the failure says what went wrong and which part of the declaration
//! triggered it.

use crate::directive::DirectiveName;
use vstd::prelude::*;
use vstd::string::StringExecFns;

verus! {

/// What went wrong.
#[derive(Clone, Copy, Debug, PartialEq, Eq, Structural)]
pub enum ErrorKind {
    /// The declaration is not an enum.
    UnsupportedTarget,
    /// A recognized directive name, the one given, was used with a shape
    /// other than a list.
    MalformedDirective(DirectiveName),
    /// The arguments of `stripped` hold something other than its supported
    /// properties.
    UnsupportedProperty,
    /// The arguments of `stripped_meta` are not exactly one annotation.
    InvalidMetadata,
}

/// The part of an annotation that a failure points at.
#[derive(Clone, Copy, Debug, PartialEq, Eq, Structural)]
pub enum Anchor {
    /// The annotation as a whole.
    Annotation,
    /// One entry of the annotation's comma-separated arguments, by its
    /// position, counted from zero.
    Entry(usize),
}

/// The part of the declaration that a failure is anchored at. Annotations
/// and variants are counted from zero, in source order.
#[derive(Clone, Copy, Debug, PartialEq, Eq, Structural)]
pub enum Location {
    /// The declaration as a whole.
    Declaration,
    /// An annotation of the declaration, by its position, and the part of
    /// it that is at fault.
    TypeAnnotation(usize, Anchor),
    /// An annotation of a variant: the variant's position, then the
    /// annotation's position among that variant's annotations, then the
    /// part of the annotation that is at fault.
    VariantAnnotation(usize, usize, Anchor),
}

/// A failure of the transformation.
#[derive(Clone, Copy, Debug, PartialEq, Eq, Structural)]
pub struct Error {
    pub kind: ErrorKind,
    pub location: Location,
}

/// The message shown for a failure of the given kind.
pub open spec fn message_text(kind: ErrorKind) -> Seq<char> {
    match kind {
        ErrorKind::UnsupportedTarget => "`Strip` can only be derived for enums"@,
        ErrorKind::MalformedDirective(DirectiveName::Stripped) =>
            "Expected list-style (i.e #[stripped(...)]), found other style attribute macro"@,
        ErrorKind::MalformedDirective(DirectiveName::StrippedMeta) =>
            "Expected #[stripped_meta(...)]. Found other style attribute."@,
        ErrorKind::UnsupportedProperty => "Failed to parse attribute: unsupported property"@,
        ErrorKind::InvalidMetadata => "Failed to parse specified metadata"@,
    }
}

/// The advice shown beside the message, for the kinds that have any.
pub open spec fn hint_text(kind: ErrorKind) -> Option<Seq<char>> {
    match kind {
        ErrorKind::UnsupportedTarget => None,
        ErrorKind::MalformedDirective(DirectiveName::Stripped) => Some(
            "Write the directive as a list: #[stripped(...)]"@,
        ),
        ErrorKind::MalformedDirective(DirectiveName::StrippedMeta) => Some(
            "Write the directive as a list: #[stripped_meta(...)]"@,
        ),
        ErrorKind::UnsupportedProperty => Some(
            "Supported properties are `ident = Name` and `ignore`; `ignore` is only supported on enum variants"@,
        ),
        ErrorKind::InvalidMetadata => Some(
            "Make sure the provided arguments are in the form of Rust metadata. (i.e the tokens contained within `#[...]`)"@,
        ),
    }
}

impl Error {
    /// The human-readable message of this failure.
    pub fn message(&self) -> (text: String)
        ensures
            text@ == message_text(self.kind),
    {
        match self.kind {
            ErrorKind::UnsupportedTarget => String::from_str(
                "`Strip` can only be derived for enums",
            ),
            ErrorKind::MalformedDirective(DirectiveName::Stripped) => String::from_str(
                "Expected list-style (i.e #[stripped(...)]), found other style attribute macro",
            ),
            ErrorKind::MalformedDirective(DirectiveName::StrippedMeta) => String::from_str(
                "Expected #[stripped_meta(...)]. Found other style attribute.",
            ),
            ErrorKind::UnsupportedProperty => String::from_str(
                "Failed to parse attribute: unsupported property",
            ),
            ErrorKind::InvalidMetadata => String::from_str("Failed to parse specified metadata"),
        }
    }

    /// The valid alternatives to show beside the message, where there are
    /// any.
    pub fn hint(&self) -> (text: Option<String>)
        ensures
            text.is_some() == hint_text(self.kind).is_some(),
            text matches Some(t) ==> hint_text(self.kind) == Some(t@),
    {
        match self.kind {
            ErrorKind::UnsupportedTarget => None,
            ErrorKind::MalformedDirective(DirectiveName::Stripped) => Some(
                String::from_str("Write the directive as a list: #[stripped(...)]"),
            ),
            ErrorKind::MalformedDirective(DirectiveName::StrippedMeta) => Some(
                String::from_str("Write the directive as a list: #[stripped_meta(...)]"),
            ),
            ErrorKind::UnsupportedProperty => Some(
                String::from_str(
                    "Supported properties are `ident = Name` and `ignore`; `ignore` is only supported on enum variants",
                ),
            ),
            ErrorKind::InvalidMetadata => Some(
                String::from_str(
                    "Make sure the provided arguments are in the form of Rust metadata. (i.e the tokens contained within `#[...]`)",
                ),
            ),
        }
    }
}

} // verus!
