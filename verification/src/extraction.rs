//! Eager extraction of the directives among a list of annotations.
//!
//! Every annotation of the list is interpreted, in order, before anything
//! is built from it. The first one that is not well formed ends the
//! extraction, and the failure says which one it was.

use crate::declaration::{annotation_views, Annotation, AnnotationView};
use crate::diagnostic::{Anchor, ErrorKind};
use crate::directive::{
    directive_of, optional_directive_view, parse_directive, Directive, DirectiveView, Fault,
    Scope,
};
use vstd::prelude::*;

verus! {

/// Why a list of annotations was turned down: the kind of failure, the
/// position, in the list, of the annotation that caused it, and the part of
/// that annotation that is at fault.
#[derive(Clone, Copy, Debug, PartialEq, Eq, Structural)]
pub struct Rejection {
    pub kind: ErrorKind,
    pub position: usize,
    pub anchor: Anchor,
}

/// Every annotation of the list is inert or a well-formed directive.
pub open spec fn well_formed(annotations: Seq<AnnotationView>, scope: Scope) -> bool {
    forall|j: int|
        0 <= j < annotations.len() ==> (#[trigger] directive_of(annotations[j], scope)) is Ok
}

/// The annotation at `position` fails with `fault`, and none before it
/// fails.
pub open spec fn fails_first_at(
    annotations: Seq<AnnotationView>,
    scope: Scope,
    fault: Fault,
    position: int,
) -> bool {
    &&& 0 <= position < annotations.len()
    &&& directive_of(annotations[position], scope) == Err::<Option<DirectiveView>, Fault>(fault)
    &&& well_formed(annotations.take(position), scope)
}

/// The directive that an annotation stands for, with `None` for an
/// annotation that is inert or not well formed.
pub open spec fn directive_or_inert(annotation: AnnotationView, scope: Scope) -> Option<
    DirectiveView,
> {
    match directive_of(annotation, scope) {
        Ok(directive) => directive,
        Err(_) => None,
    }
}

/// What each annotation of a list stands for, position by position.
pub open spec fn directives_of(annotations: Seq<AnnotationView>, scope: Scope) -> Seq<
    Option<DirectiveView>,
> {
    annotations.map_values(|a: AnnotationView| directive_or_inert(a, scope))
}

/// The values of a sequence of optional directives, in order.
pub open spec fn directive_views(directives: Seq<Option<Directive>>) -> Seq<Option<DirectiveView>> {
    directives.map_values(|d: Option<Directive>| optional_directive_view(d))
}

/// Interprets every annotation of a list, in order. The result holds one
/// entry per annotation: the directive it stands for, or `None` for an
/// inert one.
pub fn extract(annotations: &Vec<Annotation>, scope: Scope) -> (outcome: Result<
    Vec<Option<Directive>>,
    Rejection,
>)
    ensures
        outcome is Ok <==> well_formed(annotation_views(annotations@), scope),
        outcome matches Ok(directives) ==> directive_views(directives@) == directives_of(
            annotation_views(annotations@),
            scope,
        ),
        outcome matches Err(rejection) ==> fails_first_at(
            annotation_views(annotations@),
            scope,
            Fault { kind: rejection.kind, anchor: rejection.anchor },
            rejection.position as int,
        ),
{
    let ghost views = annotation_views(annotations@);
    let mut directives: Vec<Option<Directive>> = Vec::new();
    let mut i: usize = 0;
    while i < annotations.len()
        invariant
            i <= annotations.len(),
            views == annotation_views(annotations@),
            directives.len() == i,
            forall|j: int| 0 <= j < i ==> (#[trigger] directive_of(views[j], scope)) is Ok,
            forall|j: int|
                0 <= j < i ==> optional_directive_view(#[trigger] directives@[j])
                    == directive_or_inert(views[j], scope),
        decreases annotations.len() - i,
    {
        assert(views[i as int] == annotations@[i as int]@);
        match parse_directive(&annotations[i], scope) {
            Ok(directive) => {
                directives.push(directive);
            },
            Err(fault) => {
                assert(well_formed(views.take(i as int), scope));
                assert(!(directive_of(views[i as int], scope) is Ok));
                return Err(Rejection { kind: fault.kind, position: i, anchor: fault.anchor });
            },
        }
        i += 1;
    }
    assert(directive_views(directives@) =~= directives_of(views, scope));
    Ok(directives)
}

} // verus!
