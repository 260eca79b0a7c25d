//! The identifier resolver.
//!
//! The derived declaration is named by the `ident` of the first `stripped`
//! directive on the source declaration. Without such a directive, or where
//! it gives no `ident`, the name is the source identifier followed by
//! `Stripped`. Later `stripped` directives on the declaration do not
//! change the name.

use crate::directive::{optional_directive_view, Directive, DirectiveView};
use crate::extraction::directive_views;
use vstd::prelude::*;
use vstd::string::StringExecFns;

verus! {

/// The directive is a `stripped`.
pub open spec fn is_stripped(directive: Option<DirectiveView>) -> bool {
    directive matches Some(DirectiveView::Stripped { .. })
}

/// The first `stripped` directive of the list, if there is one.
pub open spec fn first_stripped(directives: Seq<Option<DirectiveView>>) -> Option<DirectiveView>
    decreases directives.len(),
{
    if directives.len() == 0 {
        None
    } else if is_stripped(directives[0]) {
        directives[0]
    } else {
        first_stripped(directives.drop_first())
    }
}

/// The name that a declaration gets where no directive names it.
pub open spec fn default_name(identifier: Seq<char>) -> Seq<char> {
    identifier + "Stripped"@
}

/// The name of the derived declaration.
pub open spec fn resolved_name(
    identifier: Seq<char>,
    directives: Seq<Option<DirectiveView>>,
) -> Seq<char> {
    match first_stripped(directives) {
        Some(DirectiveView::Stripped { ident: Some(name), .. }) => name,
        _ => default_name(identifier),
    }
}

/// The source identifier followed by `Stripped`.
pub fn default_identifier(identifier: &str) -> (name: String)
    ensures
        name@ == default_name(identifier@),
{
    String::from_str(identifier).concat("Stripped")
}

/// Computes the name of the derived declaration from the source identifier
/// and the directives extracted from the declaration's own annotations.
pub fn resolve_identifier(identifier: &str, directives: &Vec<Option<Directive>>) -> (name: String)
    ensures
        name@ == resolved_name(identifier@, directive_views(directives@)),
{
    let ghost views = directive_views(directives@);
    let mut i: usize = 0;
    assert(views.skip(0) =~= views);
    while i < directives.len()
        invariant
            i <= directives.len(),
            views == directive_views(directives@),
            first_stripped(views) == first_stripped(views.skip(i as int)),
        decreases directives.len() - i,
    {
        proof {
            assert(views.skip(i as int)[0] == views[i as int]);
            assert(views.skip(i as int).drop_first() =~= views.skip(i + 1));
            assert(views[i as int] == optional_directive_view(directives@[i as int]));
        }
        match &directives[i] {
            Some(Directive::Stripped { ident, .. }) => {
                return match ident {
                    Some(name) => name.clone(),
                    None => default_identifier(identifier),
                };
            },
            _ => {},
        }
        i += 1;
    }
    default_identifier(identifier)
}

/// Where the first `stripped` directive stands at `position`, it is the one
/// that names the declaration.
pub proof fn lemma_first_stripped_at(directives: Seq<Option<DirectiveView>>, position: int)
    requires
        0 <= position < directives.len(),
        is_stripped(directives[position]),
        forall|k: int| 0 <= k < position ==> !is_stripped(#[trigger] directives[k]),
    ensures
        first_stripped(directives) == directives[position],
    decreases position,
{
    if position > 0 {
        let rest = directives.drop_first();
        assert(!is_stripped(directives[0]));
        assert forall|k: int| 0 <= k < position - 1 implies !is_stripped(#[trigger] rest[k]) by {
            assert(rest[k] == directives[k + 1]);
        }
        lemma_first_stripped_at(rest, position - 1);
    }
}

/// Without any `stripped` directive there is none that names the
/// declaration.
pub proof fn lemma_no_stripped(directives: Seq<Option<DirectiveView>>)
    requires
        forall|k: int| 0 <= k < directives.len() ==> !is_stripped(#[trigger] directives[k]),
    ensures
        first_stripped(directives) is None,
    decreases directives.len(),
{
    if directives.len() > 0 {
        let rest = directives.drop_first();
        assert(!is_stripped(directives[0]));
        assert forall|k: int| 0 <= k < rest.len() implies !is_stripped(#[trigger] rest[k]) by {
            assert(rest[k] == directives[k + 1]);
        }
        lemma_no_stripped(rest);
    }
}

} // verus!
