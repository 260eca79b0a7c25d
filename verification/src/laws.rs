//! What holds of the transformation, whatever the declaration.
//!
//! Each proof function states one law over the values that the contracts
//! of the transformation speak of.

use crate::declaration::{AnnotationView, Kind, SourceView, VariantView};
use crate::diagnostic::{Anchor, Error, ErrorKind, Location};
use crate::directive::{
    directive_of, lemma_first_unsupported_at, stripped_from, DirectiveName,
    DirectiveView, Fault, PropertyView, Scope,
};
use crate::extraction::{directive_or_inert, directives_of, fails_first_at, well_formed};
use crate::metadata::{composed, contribution, lemma_composed_push};
use crate::naming::{is_stripped, lemma_first_stripped_at, lemma_no_stripped};
use crate::selection::{
    excluded, kept_name, lemma_retained_push, retained, variants_well_formed,
};
use crate::strip_enum::{accepted, projection, reported};
use crate::syntax::parsed_annotation;
use vstd::prelude::*;

verus! {

/// The test that a variant passes when it stays.
pub open spec fn stays() -> spec_fn(VariantView) -> bool {
    |v: VariantView| !excluded(v)
}

/// The identifier of a variant.
pub open spec fn identifier_of() -> spec_fn(VariantView) -> Seq<char> {
    |v: VariantView| v.identifier
}

/// What is retained of a list of variants is what is retained of its
/// front, followed by what is retained of its back.
pub proof fn law_retained_concat(front: Seq<VariantView>, back: Seq<VariantView>)
    ensures
        retained(front + back) == retained(front) + retained(back),
    decreases back.len(),
{
    if back.len() == 0 {
        assert(front + back =~= front);
        assert(retained(front) + retained(back) =~= retained(front));
    } else {
        let shorter = back.drop_last();
        law_retained_concat(front, shorter);
        lemma_retained_push(front + shorter, back.last());
        lemma_retained_push(shorter, back.last());
        assert((front + shorter).push(back.last()) =~= front + back);
        assert(shorter.push(back.last()) =~= back);
        match kept_name(back.last()) {
            Some(name) => {
                assert((retained(front) + retained(shorter)).push(name) =~= retained(front)
                    + retained(shorter).push(name));
            },
            None => {},
        }
    }
}

/// The retained identifiers are those of the source variants without the
/// ones that are left out, in source order.
pub proof fn law_retained_is_source_without_ignored(variants: Seq<VariantView>)
    ensures
        retained(variants) == variants.filter(stays()).map_values(identifier_of()),
    decreases variants.len(),
{
    reveal(Seq::filter);
    if variants.len() == 0 {
        assert(retained(variants) =~= variants.filter(stays()).map_values(identifier_of()));
    } else {
        let shorter = variants.drop_last();
        let last = variants.last();
        law_retained_is_source_without_ignored(shorter);
        assert(shorter.push(last) =~= variants);
        lemma_retained_push(shorter, last);
        if excluded(last) {
            assert(variants.filter(stays()) == shorter.filter(stays()));
        } else {
            assert(variants.filter(stays()) == shorter.filter(stays()).push(last));
            assert(shorter.filter(stays()).push(last).map_values(identifier_of())
                =~= shorter.filter(stays()).map_values(identifier_of()).push(last.identifier));
        }
    }
}

/// Where no variant is left out, the derived declaration has as many
/// variants as the source, under the same identifiers, in the same order.
pub proof fn law_without_ignore_all_variants_stay(variants: Seq<VariantView>)
    requires
        forall|v: int| 0 <= v < variants.len() ==> !excluded(#[trigger] variants[v]),
    ensures
        retained(variants) == variants.map_values(identifier_of()),
        retained(variants).len() == variants.len(),
    decreases variants.len(),
{
    if variants.len() == 0 {
        assert(retained(variants) =~= variants.map_values(identifier_of()));
    } else {
        let shorter = variants.drop_last();
        let last = variants.last();
        assert forall|v: int| 0 <= v < shorter.len() implies !excluded(#[trigger] shorter[v]) by {
            assert(shorter[v] == variants[v]);
        }
        law_without_ignore_all_variants_stay(shorter);
        assert(shorter.push(last) =~= variants);
        lemma_retained_push(shorter, last);
        assert(!excluded(variants[variants.len() - 1]));
        assert(shorter.map_values(identifier_of()).push(last.identifier) =~= variants.map_values(
            identifier_of(),
        ));
    }
}

/// A declaration without any `stripped` directive of its own is named by
/// its identifier followed by `Stripped`.
pub proof fn law_default_identifier(source: SourceView)
    requires
        forall|j: int|
            0 <= j < source.annotations.len() ==> !is_stripped(
                directive_or_inert(#[trigger] source.annotations[j], Scope::Type),
            ),
    ensures
        projection(source).identifier == source.identifier + "Stripped"@,
{
    let directives = directives_of(source.annotations, Scope::Type);
    assert forall|k: int| 0 <= k < directives.len() implies !is_stripped(
        #[trigger] directives[k],
    ) by {
        assert(directives[k] == directive_or_inert(source.annotations[k], Scope::Type));
    }
    lemma_no_stripped(directives);
}

/// The first `stripped` directive of a declaration decides its name: the
/// `ident` it gives, or else the identifier followed by `Stripped`.
/// Whatever stands after that directive does not change the name.
pub proof fn law_first_stripped_decides_identifier(source: SourceView, position: int)
    requires
        0 <= position < source.annotations.len(),
        is_stripped(directive_or_inert(source.annotations[position], Scope::Type)),
        forall|k: int|
            0 <= k < position ==> !is_stripped(
                directive_or_inert(#[trigger] source.annotations[k], Scope::Type),
            ),
    ensures
        projection(source).identifier == match directive_or_inert(
            source.annotations[position],
            Scope::Type,
        ) {
            Some(DirectiveView::Stripped { ident: Some(name), .. }) => name,
            _ => source.identifier + "Stripped"@,
        },
{
    let directives = directives_of(source.annotations, Scope::Type);
    assert(directives[position] == directive_or_inert(source.annotations[position], Scope::Type));
    assert forall|k: int| 0 <= k < position implies !is_stripped(#[trigger] directives[k]) by {
        assert(directives[k] == directive_or_inert(source.annotations[k], Scope::Type));
    }
    lemma_first_stripped_at(directives, position);
}

/// What is composed of a list of directives is what is composed of its
/// front, followed by what is composed of its back.
pub proof fn law_composed_concat(
    front: Seq<Option<DirectiveView>>,
    back: Seq<Option<DirectiveView>>,
)
    ensures
        composed(front + back) == composed(front) + composed(back),
    decreases back.len(),
{
    if back.len() == 0 {
        assert(front + back =~= front);
        assert(composed(front) + composed(back) =~= composed(front));
    } else {
        let shorter = back.drop_last();
        law_composed_concat(front, shorter);
        lemma_composed_push(front + shorter, back.last());
        lemma_composed_push(shorter, back.last());
        assert((front + shorter).push(back.last()) =~= front + back);
        assert(shorter.push(back.last()) =~= back);
        match contribution(back.last()) {
            Some(nested) => {
                assert((composed(front) + composed(shorter)).push(nested) =~= composed(front)
                    + composed(shorter).push(nested));
            },
            None => {},
        }
    }
}

/// Two `stripped_meta` groups, in that order, give the annotation of the
/// first followed by the annotation of the second. Where both groups hold
/// the same annotation, it stands twice.
pub proof fn law_two_groups_compose_in_order(
    source: SourceView,
    first: AnnotationView,
    second: AnnotationView,
)
    requires
        source.annotations == seq![first, second],
        first.path == "stripped_meta"@,
        second.path == "stripped_meta"@,
        well_formed(source.annotations, Scope::Type),
    ensures
        parsed_annotation(first.argument_tokens) is Some,
        parsed_annotation(second.argument_tokens) is Some,
        projection(source).annotations == seq![
            parsed_annotation(first.argument_tokens)->0,
            parsed_annotation(second.argument_tokens)->0,
        ],
{
    reveal_strlit("stripped_meta");
    reveal_strlit("stripped");
    assert("stripped_meta"@.len() != "stripped"@.len());
    assert(source.annotations[0] == first);
    assert(source.annotations[1] == second);
    assert(directive_of(first, Scope::Type) is Ok);
    assert(directive_of(second, Scope::Type) is Ok);
    let directives = directives_of(source.annotations, Scope::Type);
    let one = directive_or_inert(first, Scope::Type);
    let two = directive_or_inert(second, Scope::Type);
    assert(directives =~= seq![one, two]);
    let empty = Seq::<Option<DirectiveView>>::empty();
    assert(empty.push(one).push(two) =~= directives);
    lemma_composed_push(empty, one);
    lemma_composed_push(empty.push(one), two);
    assert(composed(empty) =~= Seq::<AnnotationView>::empty());
    assert(composed(directives) =~= seq![
        parsed_annotation(first.argument_tokens)->0,
        parsed_annotation(second.argument_tokens)->0,
    ]);
}

/// The test that a directive passes when it is a `stripped_meta` group.
pub open spec fn is_group() -> spec_fn(Option<DirectiveView>) -> bool {
    |d: Option<DirectiveView>| contribution(d) is Some
}

/// The annotation that a `stripped_meta` group holds.
pub open spec fn held_by() -> spec_fn(Option<DirectiveView>) -> AnnotationView {
    |d: Option<DirectiveView>| contribution(d)->0
}

/// The composed annotations are those of the `stripped_meta` groups, one
/// for each group, in the order of the groups. Whatever else stands among
/// the groups adds nothing.
pub proof fn law_composed_is_groups_in_order(directives: Seq<Option<DirectiveView>>)
    ensures
        composed(directives) == directives.filter(is_group()).map_values(held_by()),
    decreases directives.len(),
{
    reveal(Seq::filter);
    if directives.len() == 0 {
        assert(composed(directives) =~= directives.filter(is_group()).map_values(held_by()));
    } else {
        let shorter = directives.drop_last();
        let last = directives.last();
        law_composed_is_groups_in_order(shorter);
        assert(shorter.push(last) =~= directives);
        lemma_composed_push(shorter, last);
        if contribution(last) is Some {
            assert(directives.filter(is_group()) == shorter.filter(is_group()).push(last));
            assert(shorter.filter(is_group()).push(last).map_values(held_by())
                =~= shorter.filter(is_group()).map_values(held_by()).push(contribution(last)->0));
        } else {
            assert(directives.filter(is_group()) == shorter.filter(is_group()));
        }
    }
}

/// Directives of which none is a `stripped_meta` group compose to nothing.
pub proof fn law_without_groups_nothing_is_composed(directives: Seq<Option<DirectiveView>>)
    requires
        forall|k: int| 0 <= k < directives.len() ==> contribution(#[trigger] directives[k]) is None,
    ensures
        composed(directives) == Seq::<AnnotationView>::empty(),
    decreases directives.len(),
{
    if directives.len() == 0 {
        assert(composed(directives) =~= Seq::<AnnotationView>::empty());
    } else {
        let shorter = directives.drop_last();
        assert forall|k: int| 0 <= k < shorter.len() implies contribution(
            #[trigger] shorter[k],
        ) is None by {
            assert(shorter[k] == directives[k]);
        }
        law_without_groups_nothing_is_composed(shorter);
        assert(shorter.push(directives.last()) =~= directives);
        lemma_composed_push(shorter, directives.last());
        assert(contribution(directives[directives.len() - 1]) is None);
    }
}

/// Two `stripped_meta` groups among any other annotations of a declaration
/// give the annotation of the first followed by the annotation of the
/// second, and nothing else. Where both groups hold the same annotation, it
/// stands twice.
pub proof fn law_two_groups_among_others_compose_in_order(
    source: SourceView,
    first: int,
    second: int,
)
    requires
        0 <= first < second < source.annotations.len(),
        source.annotations[first].path == "stripped_meta"@,
        source.annotations[second].path == "stripped_meta"@,
        forall|k: int|
            0 <= k < source.annotations.len() && k != first && k != second ==> (
            #[trigger] source.annotations[k]).path != "stripped_meta"@,
        well_formed(source.annotations, Scope::Type),
    ensures
        parsed_annotation(source.annotations[first].argument_tokens) is Some,
        parsed_annotation(source.annotations[second].argument_tokens) is Some,
        projection(source).annotations == seq![
            parsed_annotation(source.annotations[first].argument_tokens)->0,
            parsed_annotation(source.annotations[second].argument_tokens)->0,
        ],
{
    reveal_strlit("stripped_meta");
    reveal_strlit("stripped");
    assert("stripped_meta"@.len() != "stripped"@.len());
    let annotations = source.annotations;
    let directives = directives_of(annotations, Scope::Type);
    assert(directive_of(annotations[first], Scope::Type) is Ok);
    assert(directive_of(annotations[second], Scope::Type) is Ok);
    let one = directives[first];
    let two = directives[second];
    assert(one == directive_or_inert(annotations[first], Scope::Type));
    assert(two == directive_or_inert(annotations[second], Scope::Type));
    let before = directives.take(first);
    let between = directives.subrange(first + 1, second);
    let after = directives.skip(second + 1);
    assert forall|k: int| 0 <= k < directives.len() && k != first && k != second implies contribution(
        #[trigger] directives[k],
    ) is None by {
        assert(directives[k] == directive_or_inert(annotations[k], Scope::Type));
        assert(annotations[k].path != "stripped_meta"@);
    }
    assert forall|k: int| 0 <= k < before.len() implies contribution(#[trigger] before[k])
        is None by {
        assert(before[k] == directives[k]);
    }
    assert forall|k: int| 0 <= k < between.len() implies contribution(#[trigger] between[k])
        is None by {
        assert(between[k] == directives[first + 1 + k]);
    }
    assert forall|k: int| 0 <= k < after.len() implies contribution(#[trigger] after[k])
        is None by {
        assert(after[k] == directives[second + 1 + k]);
    }
    law_without_groups_nothing_is_composed(before);
    law_without_groups_nothing_is_composed(between);
    law_without_groups_nothing_is_composed(after);
    lemma_composed_push(before, one);
    let front = before.push(one);
    law_composed_concat(front, between);
    lemma_composed_push(front + between, two);
    let middle = (front + between).push(two);
    law_composed_concat(middle, after);
    assert(middle + after =~= directives);
    assert(composed(directives) =~= seq![contribution(one)->0, contribution(two)->0]);
}

/// A `stripped` annotation in any shape but a list is malformed, on the
/// declaration and on a variant alike.
pub proof fn law_stripped_must_be_a_list(annotation: AnnotationView, scope: Scope)
    requires
        annotation.path == "stripped"@,
        !(annotation.shape is List),
    ensures
        directive_of(annotation, scope) == Err::<Option<DirectiveView>, Fault>(
            Fault {
                kind: ErrorKind::MalformedDirective(DirectiveName::Stripped),
                anchor: Anchor::Annotation,
            },
        ),
{
}

/// A `stripped_meta` annotation on the declaration in any shape but a
/// list is malformed.
pub proof fn law_stripped_meta_must_be_a_list(annotation: AnnotationView)
    requires
        annotation.path == "stripped_meta"@,
        !(annotation.shape is List),
    ensures
        directive_of(annotation, Scope::Type) == Err::<Option<DirectiveView>, Fault>(
            Fault {
                kind: ErrorKind::MalformedDirective(DirectiveName::StrippedMeta),
                anchor: Anchor::Annotation,
            },
        ),
{
    reveal_strlit("stripped_meta");
    reveal_strlit("stripped");
    assert("stripped_meta"@.len() != "stripped"@.len());
}

/// A declaration that carries a directive that is not well formed, on
/// itself or on a variant, is not accepted: nothing is derived from it.
pub proof fn law_failed_directive_is_fatal(source: SourceView)
    requires
        (exists|j: int|
            0 <= j < source.annotations.len() && directive_of(
                #[trigger] source.annotations[j],
                Scope::Type,
            ) is Err) || (exists|v: int, j: int|
            0 <= v < source.variants.len() && 0 <= j < source.variants[v].annotations.len()
                && directive_of(
                #[trigger] source.variants[v].annotations[j],
                Scope::Variant,
            ) is Err),
    ensures
        !accepted(source),
{
}

/// A `stripped` annotation on the declaration that is written in any shape
/// but a list keeps the declaration from being accepted. Where nothing
/// before it fails, it is what is reported, as a malformed directive.
pub proof fn law_malformed_stripped_on_declaration(source: SourceView, position: usize)
    requires
        0 <= position < source.annotations.len(),
        source.annotations[position as int].path == "stripped"@,
        !(source.annotations[position as int].shape is List),
    ensures
        !accepted(source),
        source.kind == Kind::Enum && variants_well_formed(source.variants) && well_formed(
            source.annotations.take(position as int),
            Scope::Type,
        ) ==> reported(
            source,
            Error {
                kind: ErrorKind::MalformedDirective(DirectiveName::Stripped),
                location: Location::TypeAnnotation(position, Anchor::Annotation),
            },
        ),
{
    law_stripped_must_be_a_list(source.annotations[position as int], Scope::Type);
}

/// A `stripped` annotation on a variant that is written in any shape but a
/// list keeps the declaration from being accepted. Where nothing before it
/// fails, it is what is reported, as a malformed directive.
pub proof fn law_malformed_stripped_on_variant(source: SourceView, variant: usize, position: usize)
    requires
        0 <= variant < source.variants.len(),
        0 <= position < source.variants[variant as int].annotations.len(),
        source.variants[variant as int].annotations[position as int].path == "stripped"@,
        !(source.variants[variant as int].annotations[position as int].shape is List),
    ensures
        !accepted(source),
        source.kind == Kind::Enum && variants_well_formed(source.variants.take(variant as int))
            && well_formed(
            source.variants[variant as int].annotations.take(position as int),
            Scope::Variant,
        ) ==> reported(
            source,
            Error {
                kind: ErrorKind::MalformedDirective(DirectiveName::Stripped),
                location: Location::VariantAnnotation(variant, position, Anchor::Annotation),
            },
        ),
{
    law_stripped_must_be_a_list(source.variants[variant as int].annotations[position as int], Scope::Variant);
}

/// A declaration that is no enum is turned down as an unsupported target,
/// whatever annotations it carries, and nothing is derived from it.
pub proof fn law_only_enums_are_accepted(source: SourceView, error: Error)
    requires
        source.kind != Kind::Enum,
    ensures
        !accepted(source),
        reported(source, error) <==> error == (Error {
            kind: ErrorKind::UnsupportedTarget,
            location: Location::Declaration,
        }),
{
}

/// Among the properties of one `stripped(...)` list, the first
/// unsupported one is the entry at fault.
pub proof fn law_first_unsupported_entry_is_at_fault(
    properties: Seq<PropertyView>,
    position: usize,
)
    requires
        position < properties.len(),
        properties[position as int] is Unsupported,
        forall|k: int| 0 <= k < position ==> !(#[trigger] properties[k] is Unsupported),
    ensures
        stripped_from(properties) == Err::<DirectiveView, Fault>(
            Fault { kind: ErrorKind::UnsupportedProperty, anchor: Anchor::Entry(position) },
        ),
{
    lemma_first_unsupported_at(properties, position as int);
    assert(properties[position as int] == PropertyView::Unsupported);
    assert(properties.contains(PropertyView::Unsupported));
}

/// A list of annotations fails at one place and in one way only.
pub proof fn law_first_failure_is_unique(
    annotations: Seq<AnnotationView>,
    scope: Scope,
    fault: Fault,
    position: int,
    other_fault: Fault,
    other_position: int,
)
    requires
        fails_first_at(annotations, scope, fault, position),
        fails_first_at(annotations, scope, other_fault, other_position),
    ensures
        fault == other_fault,
        position == other_position,
{
    if position < other_position {
        assert(annotations.take(other_position)[position] == annotations[position]);
        assert(directive_of(annotations.take(other_position)[position], scope) is Ok);
    }
    if other_position < position {
        assert(annotations.take(position)[other_position] == annotations[other_position]);
        assert(directive_of(annotations.take(position)[other_position], scope) is Ok);
    }
}

/// A list of annotations that fails somewhere is not well formed.
pub proof fn law_failure_excludes_well_formed(
    annotations: Seq<AnnotationView>,
    scope: Scope,
    fault: Fault,
    position: int,
)
    requires
        fails_first_at(annotations, scope, fault, position),
    ensures
        !well_formed(annotations, scope),
{
    assert(!(directive_of(annotations[position], scope) is Ok));
}

/// The transformation reports at most one failure for a declaration, and
/// none for a declaration that it accepts.
pub proof fn law_report_is_unique(source: SourceView, error: Error, other: Error)
    requires
        reported(source, error),
    ensures
        !accepted(source),
        reported(source, other) ==> other == error,
{
    match error.location {
        Location::Declaration => {},
        Location::VariantAnnotation(v, j, anchor) => {
            law_failure_excludes_well_formed(
                source.variants[v as int].annotations,
                Scope::Variant,
                Fault { kind: error.kind, anchor },
                j as int,
            );
            if reported(source, other) {
                match other.location {
                    Location::VariantAnnotation(w, k, other_anchor) => {
                        if v < w {
                            assert(source.variants.take(w as int)[v as int]
                                == source.variants[v as int]);
                        }
                        if w < v {
                            assert(source.variants.take(v as int)[w as int]
                                == source.variants[w as int]);
                            law_failure_excludes_well_formed(
                                source.variants[w as int].annotations,
                                Scope::Variant,
                                Fault { kind: other.kind, anchor: other_anchor },
                                k as int,
                            );
                        }
                        law_first_failure_is_unique(
                            source.variants[v as int].annotations,
                            Scope::Variant,
                            Fault { kind: error.kind, anchor },
                            j as int,
                            Fault { kind: other.kind, anchor: other_anchor },
                            k as int,
                        );
                    },
                    _ => {},
                }
            }
        },
        Location::TypeAnnotation(j, anchor) => {
            law_failure_excludes_well_formed(
                source.annotations,
                Scope::Type,
                Fault { kind: error.kind, anchor },
                j as int,
            );
            if reported(source, other) {
                match other.location {
                    Location::TypeAnnotation(k, other_anchor) => {
                        law_first_failure_is_unique(
                            source.annotations,
                            Scope::Type,
                            Fault { kind: error.kind, anchor },
                            j as int,
                            Fault { kind: other.kind, anchor: other_anchor },
                            k as int,
                        );
                    },
                    Location::VariantAnnotation(w, k, other_anchor) => {
                        law_failure_excludes_well_formed(
                            source.variants[w as int].annotations,
                            Scope::Variant,
                            Fault { kind: other.kind, anchor: other_anchor },
                            k as int,
                        );
                    },
                    _ => {},
                }
            }
        },
    }
}

} // verus!
