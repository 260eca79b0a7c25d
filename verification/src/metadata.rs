//! The metadata composer.
//!
//! Each `stripped_meta` directive on the source declaration contributes
//! the one annotation it holds to the derived declaration, in declaration
//! order. Nothing is merged, sorted or deduplicated: two groups that hold
//! the same annotation yield it twice.

use crate::declaration::{annotation_views, Annotation, AnnotationView};
use crate::directive::{optional_directive_view, Directive, DirectiveView};
use crate::extraction::directive_views;
use vstd::prelude::*;

verus! {

/// The annotation that a directive contributes to the derived declaration.
pub open spec fn contribution(directive: Option<DirectiveView>) -> Option<AnnotationView> {
    match directive {
        Some(DirectiveView::StrippedMeta { nested }) => Some(nested),
        _ => None,
    }
}

/// The annotations of the derived declaration, in order.
pub open spec fn composed(directives: Seq<Option<DirectiveView>>) -> Seq<AnnotationView> {
    directives.filter_map(|d: Option<DirectiveView>| contribution(d))
}

/// Adding one directive to the end adds its contribution, if it has one,
/// to the end of what is composed.
pub proof fn lemma_composed_push(
    directives: Seq<Option<DirectiveView>>,
    next: Option<DirectiveView>,
)
    ensures
        composed(directives.push(next)) == match contribution(next) {
            Some(nested) => composed(directives).push(nested),
            None => composed(directives),
        },
{
    let all = directives.push(next);
    assert(all.drop_last() =~= directives);
    assert(all.last() == next);
    match contribution(next) {
        Some(nested) => {
            assert(composed(directives) + seq![nested] =~= composed(directives).push(nested));
        },
        None => {},
    }
}

/// Collects the annotations that the `stripped_meta` directives hold.
pub fn compose_metadata(directives: &Vec<Option<Directive>>) -> (annotations: Vec<Annotation>)
    ensures
        annotation_views(annotations@) == composed(directive_views(directives@)),
{
    let ghost views = directive_views(directives@);
    let mut annotations: Vec<Annotation> = Vec::new();
    let mut i: usize = 0;
    while i < directives.len()
        invariant
            i <= directives.len(),
            views == directive_views(directives@),
            annotation_views(annotations@) == composed(views.take(i as int)),
        decreases directives.len() - i,
    {
        let ghost before = annotation_views(annotations@);
        proof {
            assert(views[i as int] == optional_directive_view(directives@[i as int]));
            assert(views.take(i + 1) =~= views.take(i as int).push(views[i as int]));
            lemma_composed_push(views.take(i as int), views[i as int]);
        }
        match &directives[i] {
            Some(Directive::StrippedMeta { nested }) => {
                annotations.push(nested.clone());
                assert(annotation_views(annotations@) =~= before.push(nested@));
            },
            _ => {},
        }
        i += 1;
    }
    assert(views.take(i as int) =~= views);
    annotations
}

} // verus!
