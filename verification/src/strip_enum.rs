//! The transformation: from an annotated enum declaration to its
//! payload-free shadow.
//!
//! The steps run strictly forward. The declaration must be an enum. The
//! directives of every variant are extracted and decide which variants
//! stay. The directives of the declaration itself are extracted and give
//! the name and the annotations of the derived declaration. The first
//! failure ends the transformation; nothing is produced then.

use crate::declaration::{
    Annotation, Kind, OutputDeclaration, OutputView, SourceDeclaration, SourceView,
};
use crate::diagnostic::{Error, ErrorKind, Location};
use crate::directive::{Fault, Scope};
use crate::extraction::{directives_of, extract, fails_first_at, well_formed};
use crate::metadata::{compose_metadata, composed};
use crate::naming::{resolve_identifier, resolved_name};
use crate::selection::{
    retained, select_variants, variants_fail_first_with, variants_well_formed,
};
use vstd::prelude::*;

verus! {

/// The declaration is an enum and every directive on it and on its
/// variants is well formed.
pub open spec fn accepted(source: SourceView) -> bool {
    &&& source.kind == Kind::Enum
    &&& variants_well_formed(source.variants)
    &&& well_formed(source.annotations, Scope::Type)
}

/// The declaration derived from an accepted source.
pub open spec fn projection(source: SourceView) -> OutputView {
    OutputView {
        identifier: resolved_name(
            source.identifier,
            directives_of(source.annotations, Scope::Type),
        ),
        visibility: source.visibility,
        variants: retained(source.variants),
        annotations: composed(directives_of(source.annotations, Scope::Type)),
    }
}

/// The failure is the first one that the transformation meets: the kind
/// of the declaration is checked before anything else, then the variants'
/// annotations in source order, then the declaration's own annotations in
/// source order. It is anchored at the annotation that fails and, where one
/// entry of its arguments is at fault, at that entry.
pub open spec fn reported(source: SourceView, error: Error) -> bool {
    match error.location {
        Location::Declaration => {
            &&& source.kind != Kind::Enum
            &&& error.kind == ErrorKind::UnsupportedTarget
        },
        Location::VariantAnnotation(_, _, _) => {
            &&& source.kind == Kind::Enum
            &&& variants_fail_first_with(source.variants, error)
        },
        Location::TypeAnnotation(j, anchor) => {
            &&& source.kind == Kind::Enum
            &&& variants_well_formed(source.variants)
            &&& fails_first_at(
                source.annotations,
                Scope::Type,
                Fault { kind: error.kind, anchor },
                j as int,
            )
        },
    }
}

/// Assembles the derived declaration from its parts. Nothing is checked
/// here: the parts are taken as they are.
pub fn emit(
    retained_variants: Vec<String>,
    resolved_identifier: String,
    composed_annotations: Vec<Annotation>,
    visibility: String,
) -> (output: OutputDeclaration)
    ensures
        output.identifier == resolved_identifier,
        output.visibility == visibility,
        output.variants == retained_variants,
        output.annotations == composed_annotations,
{
    OutputDeclaration {
        identifier: resolved_identifier,
        visibility,
        variants: retained_variants,
        annotations: composed_annotations,
    }
}

/// Derives the payload-free shadow of an annotated enum declaration. The
/// source is only read.
pub fn strip_enum(source: &SourceDeclaration) -> (outcome: Result<OutputDeclaration, Error>)
    ensures
        outcome is Ok <==> accepted(source@),
        outcome matches Ok(output) ==> output@ == projection(source@),
        outcome matches Err(error) ==> reported(source@, error),
{
    match source.kind {
        Kind::Enum => {},
        _ => {
            return Err(
                Error { kind: ErrorKind::UnsupportedTarget, location: Location::Declaration },
            );
        },
    }
    let variants = match select_variants(&source.variants) {
        Ok(variants) => variants,
        Err(error) => {
            return Err(error);
        },
    };
    let directives = match extract(&source.annotations, Scope::Type) {
        Ok(directives) => directives,
        Err(rejection) => {
            return Err(
                Error {
                    kind: rejection.kind,
                    location: Location::TypeAnnotation(rejection.position, rejection.anchor),
                },
            );
        },
    };
    let identifier = resolve_identifier(source.identifier.as_str(), &directives);
    let annotations = compose_metadata(&directives);
    Ok(emit(variants, identifier, annotations, source.visibility.clone()))
}

} // verus!
