//! The variant selector.
//!
//! A variant is left out exactly when one of its annotations is a
//! `stripped` directive that sets `ignore`. The variants that stay keep
//! their source order; none is merged, repeated or moved.

use crate::declaration::{Variant, VariantView};
use crate::diagnostic::{Error, Location};
use crate::directive::{
    optional_directive_view, Directive, DirectiveView, Fault, Scope,
};
use crate::extraction::{
    directive_views, directives_of, extract, fails_first_at, well_formed, Rejection,
};
use vstd::prelude::*;

verus! {

/// The directive is a `stripped` that sets `ignore`.
pub open spec fn asks_to_ignore(directive: Option<DirectiveView>) -> bool {
    directive matches Some(DirectiveView::Stripped { ignore: true, .. })
}

/// One of the directives asks to leave the variant out.
pub open spec fn excludes(directives: Seq<Option<DirectiveView>>) -> bool {
    exists|j: int| 0 <= j < directives.len() && asks_to_ignore(#[trigger] directives[j])
}

/// Tells whether the directives extracted from a variant leave it out.
pub fn is_excluded(directives: &Vec<Option<Directive>>) -> (excluded: bool)
    ensures
        excluded == excludes(directive_views(directives@)),
{
    let ghost views = directive_views(directives@);
    let mut i: usize = 0;
    while i < directives.len()
        invariant
            i <= directives.len(),
            views == directive_views(directives@),
            forall|j: int| 0 <= j < i ==> !asks_to_ignore(#[trigger] views[j]),
        decreases directives.len() - i,
    {
        assert(views[i as int] == optional_directive_view(directives@[i as int]));
        match &directives[i] {
            Some(Directive::Stripped { ignore, .. }) => {
                if *ignore {
                    assert(asks_to_ignore(views[i as int]));
                    return true;
                }
            },
            _ => {},
        }
        i += 1;
    }
    false
}

/// The variant is left out of the derived declaration.
pub open spec fn excluded(variant: VariantView) -> bool {
    excludes(directives_of(variant.annotations, Scope::Variant))
}

/// Extracts the directives of one variant and tells whether they leave it
/// out. Fails where one of the variant's annotations is a directive that
/// is not well formed.
pub fn ignore_variant(variant: &Variant) -> (outcome: Result<bool, Rejection>)
    ensures
        outcome is Ok <==> well_formed(variant@.annotations, Scope::Variant),
        outcome matches Ok(ignored) ==> ignored == excluded(variant@),
        outcome matches Err(rejection) ==> fails_first_at(
            variant@.annotations,
            Scope::Variant,
            Fault { kind: rejection.kind, anchor: rejection.anchor },
            rejection.position as int,
        ),
{
    match extract(&variant.annotations, Scope::Variant) {
        Ok(directives) => Ok(is_excluded(&directives)),
        Err(rejection) => Err(rejection),
    }
}

/// The name under which a variant stays, or `None` for one that is left
/// out.
pub open spec fn kept_name(variant: VariantView) -> Option<Seq<char>> {
    if excluded(variant) {
        None
    } else {
        Some(variant.identifier)
    }
}

/// The identifiers of the variants that stay, in source order.
pub open spec fn retained(variants: Seq<VariantView>) -> Seq<Seq<char>> {
    variants.filter_map(|v: VariantView| kept_name(v))
}

/// The annotations of every variant are well formed.
pub open spec fn variants_well_formed(variants: Seq<VariantView>) -> bool {
    forall|v: int|
        0 <= v < variants.len() ==> well_formed(
            (#[trigger] variants[v]).annotations,
            Scope::Variant,
        )
}

/// The failure is the first one met when the variants are gone through in
/// order, and each variant's annotations in order.
pub open spec fn variants_fail_first_with(variants: Seq<VariantView>, error: Error) -> bool {
    match error.location {
        Location::VariantAnnotation(v, j, anchor) => {
            &&& v < variants.len()
            &&& variants_well_formed(variants.take(v as int))
            &&& fails_first_at(
                variants[v as int].annotations,
                Scope::Variant,
                Fault { kind: error.kind, anchor },
                j as int,
            )
        },
        _ => false,
    }
}

/// The values of a sequence of variants, in order.
pub open spec fn variant_views(variants: Seq<Variant>) -> Seq<VariantView> {
    variants.map_values(|v: Variant| v@)
}

/// The values of a sequence of strings, in order.
pub open spec fn text_views(texts: Seq<String>) -> Seq<Seq<char>> {
    texts.map_values(|t: String| t@)
}

/// Adding one variant to the end adds its name to the end of what is
/// retained, unless the variant is left out.
pub proof fn lemma_retained_push(variants: Seq<VariantView>, next: VariantView)
    ensures
        retained(variants.push(next)) == match kept_name(next) {
            Some(name) => retained(variants).push(name),
            None => retained(variants),
        },
{
    let all = variants.push(next);
    assert(all.drop_last() =~= variants);
    assert(all.last() == next);
    match kept_name(next) {
        Some(name) => {
            assert(retained(variants) + seq![name] =~= retained(variants).push(name));
        },
        None => {},
    }
}

/// Goes through the variants in order and collects the identifiers of
/// those that stay.
pub fn select_variants(variants: &Vec<Variant>) -> (outcome: Result<Vec<String>, Error>)
    ensures
        outcome is Ok <==> variants_well_formed(variant_views(variants@)),
        outcome matches Ok(names) ==> text_views(names@) == retained(variant_views(variants@)),
        outcome matches Err(error) ==> variants_fail_first_with(variant_views(variants@), error),
{
    let ghost views = variant_views(variants@);
    let mut names: Vec<String> = Vec::new();
    let mut v: usize = 0;
    while v < variants.len()
        invariant
            v <= variants.len(),
            views == variant_views(variants@),
            variants_well_formed(views.take(v as int)),
            text_views(names@) == retained(views.take(v as int)),
        decreases variants.len() - v,
    {
        let ghost before = views.take(v as int);
        let ghost names_before = text_views(names@);
        proof {
            assert(views[v as int] == variants@[v as int]@);
            assert(views.take(v + 1) =~= before.push(views[v as int]));
            lemma_retained_push(before, views[v as int]);
        }
        match ignore_variant(&variants[v]) {
            Ok(ignored) => {
                if !ignored {
                    names.push(variants[v].identifier.clone());
                    assert(text_views(names@) =~= names_before.push(views[v as int].identifier));
                }
            },
            Err(rejection) => {
                let error = Error {
                    kind: rejection.kind,
                    location: Location::VariantAnnotation(
                        v,
                        rejection.position,
                        rejection.anchor,
                    ),
                };
                assert(!well_formed(views[v as int].annotations, Scope::Variant));
                return Err(error);
            },
        }
        assert forall|u: int| 0 <= u < v + 1 implies well_formed(
            (#[trigger] views.take(v + 1)[u]).annotations,
            Scope::Variant,
        ) by {
            if u < v {
                assert(views.take(v + 1)[u] == before[u]);
            }
        }
        v += 1;
    }
    assert(views.take(v as int) =~= views);
    Ok(names)
}

} // verus!
