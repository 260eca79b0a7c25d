//! The directive grammar.
//!
//! Two annotation names are directives: `stripped`, on the declaration or
//! on a variant, and `stripped_meta`, on the declaration only. A directive
//! must be written as a list. The arguments of `stripped` are
//! comma-separated properties: `ident = Name` and `ignore`, the latter on
//! variants only. The arguments of `stripped_meta` are exactly one
//! annotation. Every other annotation is inert and passes through
//! untouched.

use crate::declaration::{Annotation, AnnotationView, Shape};
use crate::diagnostic::{Anchor, ErrorKind};
use crate::syntax::{
    parse_annotation, parse_entries, parse_identifier, parsed_annotation, parsed_entries,
    parsed_identifier,
};
use crate::text::same_text;
use vstd::prelude::*;

verus! {

/// Where an annotation is attached.
#[derive(Clone, Copy, Debug, PartialEq, Eq, Structural)]
pub enum Scope {
    /// On the declaration itself.
    Type,
    /// On one of its variants.
    Variant,
}

/// The names that make an annotation a directive.
#[derive(Clone, Copy, Debug, PartialEq, Eq, Structural)]
pub enum DirectiveName {
    Stripped,
    StrippedMeta,
}

/// Why an annotation is no well-formed directive: the kind of failure and
/// the part of the annotation that is at fault.
#[derive(Clone, Copy, Debug, PartialEq, Eq, Structural)]
pub struct Fault {
    pub kind: ErrorKind,
    pub anchor: Anchor,
}

/// The directive name that a path stands for at a scope, if any.
pub open spec fn recognized(path: Seq<char>, scope: Scope) -> Option<DirectiveName> {
    if path == "stripped"@ {
        Some(DirectiveName::Stripped)
    } else if path == "stripped_meta"@ && scope == Scope::Type {
        Some(DirectiveName::StrippedMeta)
    } else {
        None
    }
}

/// Tells whether `path` names a directive at `scope`, and which.
pub fn recognize(path: &str, scope: Scope) -> (name: Option<DirectiveName>)
    ensures
        name == recognized(path@, scope),
{
    if same_text(path, "stripped") {
        Some(DirectiveName::Stripped)
    } else if same_text(path, "stripped_meta") && scope == Scope::Type {
        Some(DirectiveName::StrippedMeta)
    } else {
        None
    }
}

/// The property that one entry of `stripped(...)` is written as.
#[derive(Clone, Copy, Debug, PartialEq, Eq, Structural)]
pub enum Key {
    /// `ident = value`.
    Ident,
    /// A bare `ignore`, on a variant.
    Ignore,
    /// Anything else.
    Unsupported,
}

/// The key of an entry: `ident` must be a name-value pair, `ignore` must be
/// a bare path and is a property of variants only.
pub open spec fn key_of(entry: AnnotationView, scope: Scope) -> Key {
    if entry.path == "ident"@ && entry.shape == Shape::NameValue {
        Key::Ident
    } else if entry.path == "ignore"@ && entry.shape == Shape::Path && scope == Scope::Variant {
        Key::Ignore
    } else {
        Key::Unsupported
    }
}

/// Classifies one entry of `stripped(...)` by its name and shape.
pub fn classify(entry: &Annotation, scope: Scope) -> (key: Key)
    ensures
        key == key_of(entry@, scope),
{
    if same_text(entry.path.as_str(), "ident") && entry.shape == Shape::NameValue {
        Key::Ident
    } else if same_text(entry.path.as_str(), "ignore") && entry.shape == Shape::Path && scope
        == Scope::Variant {
        Key::Ignore
    } else {
        Key::Unsupported
    }
}

/// What one entry of `stripped(...)` asks for.
#[derive(Debug)]
pub enum Property {
    /// Name the derived declaration so.
    Ident(String),
    /// Leave this variant out.
    Ignore,
    /// Nothing that `stripped` supports.
    Unsupported,
}

/// The mathematical value of a [`Property`].
pub ghost enum PropertyView {
    Ident(Seq<char>),
    Ignore,
    Unsupported,
}

impl View for Property {
    type V = PropertyView;

    open spec fn view(&self) -> PropertyView {
        match self {
            Property::Ident(name) => PropertyView::Ident(name@),
            Property::Ignore => PropertyView::Ignore,
            Property::Unsupported => PropertyView::Unsupported,
        }
    }
}

/// The values of a sequence of properties, in order.
pub open spec fn property_views(properties: Seq<Property>) -> Seq<PropertyView> {
    properties.map_values(|p: Property| p@)
}

/// The property for a key, given what the entry's value is as an
/// identifier. An `ident` whose value is no identifier is unsupported.
pub open spec fn property_for(key: Key, identifier: Option<Seq<char>>) -> PropertyView {
    match key {
        Key::Ident => match identifier {
            Some(name) => PropertyView::Ident(name),
            None => PropertyView::Unsupported,
        },
        Key::Ignore => PropertyView::Ignore,
        Key::Unsupported => PropertyView::Unsupported,
    }
}

impl Property {
    /// Builds the property for `key`. `identifier` is the entry's value
    /// parsed as an identifier; it is looked at for `Key::Ident` only.
    pub fn for_key(key: Key, identifier: Option<String>) -> (property: Property)
        ensures
            property@ == property_for(
                key,
                match identifier {
                    Some(name) => Some(name@),
                    None => None,
                },
            ),
    {
        match key {
            Key::Ident => match identifier {
                Some(name) => Property::Ident(name),
                None => Property::Unsupported,
            },
            Key::Ignore => Property::Ignore,
            Key::Unsupported => Property::Unsupported,
        }
    }
}

/// An annotation that the engine interprets.
#[derive(Debug)]
pub enum Directive {
    /// `stripped(...)`: an optional name for the derived declaration, and
    /// whether the variant it is attached to is left out.
    Stripped { ident: Option<String>, ignore: bool },
    /// `stripped_meta(...)`: one annotation for the derived declaration.
    StrippedMeta { nested: Annotation },
}

/// The mathematical value of a [`Directive`].
pub ghost enum DirectiveView {
    Stripped { ident: Option<Seq<char>>, ignore: bool },
    StrippedMeta { nested: AnnotationView },
}

impl View for Directive {
    type V = DirectiveView;

    open spec fn view(&self) -> DirectiveView {
        match self {
            Directive::Stripped { ident, ignore } => DirectiveView::Stripped {
                ident: match ident {
                    Some(name) => Some(name@),
                    None => None,
                },
                ignore: *ignore,
            },
            Directive::StrippedMeta { nested } => DirectiveView::StrippedMeta { nested: nested@ },
        }
    }
}

/// The name given by the last `ident` property, if there is one.
pub open spec fn chosen_ident(properties: Seq<PropertyView>) -> Option<Seq<char>>
    decreases properties.len(),
{
    if properties.len() == 0 {
        None
    } else {
        match properties.last() {
            PropertyView::Ident(name) => Some(name),
            _ => chosen_ident(properties.drop_last()),
        }
    }
}

/// The position of the first unsupported property, or the length of the
/// list where every property is supported.
pub open spec fn first_unsupported(properties: Seq<PropertyView>) -> int
    decreases properties.len(),
{
    if properties.len() == 0 || properties[0] is Unsupported {
        0
    } else {
        1 + first_unsupported(properties.drop_first())
    }
}

/// The first unsupported property stands where one is found that has none
/// before it.
pub proof fn lemma_first_unsupported_at(properties: Seq<PropertyView>, position: int)
    requires
        0 <= position < properties.len(),
        properties[position] is Unsupported,
        forall|k: int| 0 <= k < position ==> !(#[trigger] properties[k] is Unsupported),
    ensures
        first_unsupported(properties) == position,
    decreases position,
{
    if position > 0 {
        let rest = properties.drop_first();
        assert(!(properties[0] is Unsupported));
        assert forall|k: int| 0 <= k < position - 1 implies !(#[trigger] rest[k] is Unsupported) by {
            assert(rest[k] == properties[k + 1]);
        }
        lemma_first_unsupported_at(rest, position - 1);
    }
}

/// The `stripped` directive that a list of properties amounts to. One
/// unsupported property rejects the whole list, and the first such
/// property is the one at fault. Among several `ident` properties the last
/// one counts.
pub open spec fn stripped_from(properties: Seq<PropertyView>) -> Result<DirectiveView, Fault> {
    if properties.contains(PropertyView::Unsupported) {
        Err(
            Fault {
                kind: ErrorKind::UnsupportedProperty,
                anchor: Anchor::Entry(first_unsupported(properties) as usize),
            },
        )
    } else {
        Ok(
            DirectiveView::Stripped {
                ident: chosen_ident(properties),
                ignore: properties.contains(PropertyView::Ignore),
            },
        )
    }
}

/// The value of the outcome of building a directive.
pub open spec fn built_view(built: Result<Directive, Fault>) -> Result<DirectiveView, Fault> {
    match built {
        Ok(directive) => Ok(directive@),
        Err(fault) => Err(fault),
    }
}

impl Directive {
    /// Folds the properties of one `stripped(...)` list into the directive.
    pub fn from_properties(properties: &Vec<Property>) -> (built: Result<Directive, Fault>)
        ensures
            built_view(built) == stripped_from(property_views(properties@)),
    {
        let ghost all = property_views(properties@);
        let mut ident: Option<String> = None;
        let mut ignore = false;
        let mut i: usize = 0;
        while i < properties.len()
            invariant
                i <= properties.len(),
                all == property_views(properties@),
                !all.take(i as int).contains(PropertyView::Unsupported),
                ignore == all.take(i as int).contains(PropertyView::Ignore),
                match ident {
                    Some(name) => Some(name@),
                    None => None,
                } == chosen_ident(all.take(i as int)),
            decreases properties.len() - i,
        {
            let ghost before = all.take(i as int);
            let ghost after = all.take(i + 1);
            proof {
                assert(after.drop_last() =~= before);
                assert(after.last() == all[i as int]);
                assert(after =~= before.push(all[i as int]));
                assert(all[i as int] == properties@[i as int]@);
            }
            match &properties[i] {
                Property::Ident(name) => {
                    ident = Some(name.clone());
                },
                Property::Ignore => {
                    ignore = true;
                },
                Property::Unsupported => {
                    proof {
                        assert(all[i as int] == PropertyView::Unsupported);
                        assert(all.contains(PropertyView::Unsupported));
                        assert forall|k: int| 0 <= k < i implies !(#[trigger] all[k]
                            is Unsupported) by {
                            assert(before[k] == all[k]);
                            assert(before.contains(all[k]));
                        }
                        lemma_first_unsupported_at(all, i as int);
                    }
                    return Err(
                        Fault { kind: ErrorKind::UnsupportedProperty, anchor: Anchor::Entry(i) },
                    );
                },
            }
            proof {
                assert forall|p: PropertyView| after.contains(p) <==> (before.contains(p) || p
                    == all[i as int]) by {
                    if after.contains(p) {
                        let k = choose|k: int| 0 <= k < after.len() && after[k] == p;
                        if k < i {
                            assert(before[k] == p);
                        }
                    }
                    if before.contains(p) {
                        let k = choose|k: int| 0 <= k < before.len() && before[k] == p;
                        assert(after[k] == p);
                    }
                    if p == all[i as int] {
                        assert(after[i as int] == p);
                    }
                }
            }
            i += 1;
        }
        proof {
            assert(all.take(i as int) =~= all);
        }
        Ok(Directive::Stripped { ident, ignore })
    }
}

/// What one entry of `stripped(...)` asks for, given what the entry parses
/// to and what its value is as an identifier. An entry that is no
/// annotation is unsupported.
pub open spec fn property_of(
    entry: Option<AnnotationView>,
    identifier: Option<Seq<char>>,
    scope: Scope,
) -> PropertyView {
    match entry {
        None => PropertyView::Unsupported,
        Some(annotation) => property_for(key_of(annotation, scope), identifier),
    }
}

impl Property {
    /// Builds the property that one entry of `stripped(...)` asks for.
    /// `entry` is what the entry parses to; `identifier` is its value
    /// parsed as an identifier, which is looked at for `ident` only.
    pub fn for_entry(
        entry: &Option<Annotation>,
        identifier: Option<String>,
        scope: Scope,
    ) -> (property: Property)
        ensures
            property@ == property_of(
                match entry {
                    Some(annotation) => Some(annotation@),
                    None => None,
                },
                match identifier {
                    Some(name) => Some(name@),
                    None => None,
                },
                scope,
            ),
    {
        match entry {
            None => Property::Unsupported,
            Some(annotation) => Property::for_key(classify(annotation, scope), identifier),
        }
    }
}

/// What one entry of `stripped(...)`, given as token text, asks for.
pub open spec fn entry_property(text: Seq<char>, scope: Scope) -> PropertyView {
    property_of(
        parsed_annotation(text),
        match parsed_annotation(text) {
            Some(annotation) => parsed_identifier(annotation.argument_tokens),
            None => None,
        },
        scope,
    )
}

/// Reads one entry of `stripped(...)`.
pub fn parse_property(text: &str, scope: Scope) -> (property: Property)
    ensures
        property@ == entry_property(text@, scope),
{
    let entry = parse_annotation(text);
    let identifier = match &entry {
        Some(annotation) => match classify(annotation, scope) {
            Key::Ident => parse_identifier(annotation.argument_tokens.as_str()),
            _ => None,
        },
        None => None,
    };
    Property::for_entry(&entry, identifier, scope)
}

/// The `stripped` directive that the entries of a list amount to. `None`
/// stands for arguments that are no comma-separated list of annotations;
/// they are rejected like an unsupported property, with the annotation as
/// a whole at fault.
pub open spec fn stripped_for(properties: Option<Seq<PropertyView>>) -> Result<
    DirectiveView,
    Fault,
> {
    match properties {
        None => Err(Fault { kind: ErrorKind::UnsupportedProperty, anchor: Anchor::Annotation }),
        Some(entries) => stripped_from(entries),
    }
}

/// The values of an optional list of properties.
pub open spec fn optional_property_views(properties: Option<Vec<Property>>) -> Option<
    Seq<PropertyView>,
> {
    match properties {
        Some(entries) => Some(property_views(entries@)),
        None => None,
    }
}

impl Directive {
    /// Builds the `stripped` directive from what its arguments parse to:
    /// the property of each entry, or `None` where the arguments are no
    /// list of entries.
    pub fn stripped(properties: Option<Vec<Property>>) -> (built: Result<Directive, Fault>)
        ensures
            built_view(built) == stripped_for(optional_property_views(properties)),
    {
        match properties {
            None => Err(
                Fault { kind: ErrorKind::UnsupportedProperty, anchor: Anchor::Annotation },
            ),
            Some(entries) => Directive::from_properties(&entries),
        }
    }

    /// Builds the `stripped_meta` directive from what its arguments parse
    /// to: the one annotation they hold, or `None` where they are not
    /// exactly one annotation.
    pub fn stripped_meta(nested: Option<Annotation>) -> (built: Result<Directive, Fault>)
        ensures
            built_view(built) == stripped_meta_for(
                match nested {
                    Some(annotation) => Some(annotation@),
                    None => None,
                },
            ),
    {
        match nested {
            Some(annotation) => Ok(Directive::StrippedMeta { nested: annotation }),
            None => Err(Fault { kind: ErrorKind::InvalidMetadata, anchor: Anchor::Annotation }),
        }
    }
}

/// The `stripped` directive that argument tokens stand for at a scope.
pub open spec fn stripped_of(tokens: Seq<char>, scope: Scope) -> Result<DirectiveView, Fault> {
    stripped_for(
        match parsed_entries(tokens) {
            None => None,
            Some(texts) => Some(texts.map_values(|t: Seq<char>| entry_property(t, scope))),
        },
    )
}

/// Parses the arguments of a `stripped(...)` directive.
pub fn parse_stripped(tokens: &str, scope: Scope) -> (built: Result<Directive, Fault>)
    ensures
        built_view(built) == stripped_of(tokens@, scope),
{
    match parse_entries(tokens) {
        None => Directive::stripped(None),
        Some(texts) => {
            let ghost wanted = texts@.map_values(|t: String| t@).map_values(
                |t: Seq<char>| entry_property(t, scope),
            );
            let mut properties: Vec<Property> = Vec::new();
            let mut i: usize = 0;
            while i < texts.len()
                invariant
                    i <= texts.len(),
                    properties.len() == i,
                    forall|k: int|
                        0 <= k < i ==> (#[trigger] properties@[k])@ == entry_property(
                            texts@[k]@,
                            scope,
                        ),
                decreases texts.len() - i,
            {
                let property = parse_property(texts[i].as_str(), scope);
                properties.push(property);
                i += 1;
            }
            proof {
                assert(property_views(properties@) =~= wanted);
            }
            Directive::stripped(Some(properties))
        },
    }
}

/// The `stripped_meta` directive that its arguments amount to, given the
/// annotation they parse to.
pub open spec fn stripped_meta_for(nested: Option<AnnotationView>) -> Result<
    DirectiveView,
    Fault,
> {
    match nested {
        Some(annotation) => Ok(DirectiveView::StrippedMeta { nested: annotation }),
        None => Err(Fault { kind: ErrorKind::InvalidMetadata, anchor: Anchor::Annotation }),
    }
}

/// The `stripped_meta` directive that argument tokens stand for.
pub open spec fn stripped_meta_of(tokens: Seq<char>) -> Result<DirectiveView, Fault> {
    stripped_meta_for(parsed_annotation(tokens))
}

/// Parses the arguments of a `stripped_meta(...)` directive.
pub fn parse_stripped_meta(tokens: &str) -> (built: Result<Directive, Fault>)
    ensures
        built_view(built) == stripped_meta_of(tokens@),
{
    Directive::stripped_meta(parse_annotation(tokens))
}

/// The directive that an annotation is written as: `Ok(None)` for an inert
/// annotation, the name of the directive for a list under a recognized
/// name, and a malformed directive for a recognized name in any other
/// shape.
pub open spec fn expected(annotation: AnnotationView, scope: Scope) -> Result<
    Option<DirectiveName>,
    Fault,
> {
    match recognized(annotation.path, scope) {
        None => Ok(None),
        Some(name) => if annotation.shape is List {
            Ok(Some(name))
        } else {
            Err(Fault { kind: ErrorKind::MalformedDirective(name), anchor: Anchor::Annotation })
        },
    }
}

/// Tells by name and shape alone, without looking at the arguments,
/// whether an annotation is inert, a directive, or malformed.
pub fn expect(annotation: &Annotation, scope: Scope) -> (outcome: Result<
    Option<DirectiveName>,
    Fault,
>)
    ensures
        outcome == expected(annotation@, scope),
{
    match recognize(annotation.path.as_str(), scope) {
        None => Ok(None),
        Some(name) => match annotation.shape {
            Shape::List(_) => Ok(Some(name)),
            _ => Err(
                Fault { kind: ErrorKind::MalformedDirective(name), anchor: Anchor::Annotation },
            ),
        },
    }
}

/// What an annotation means at a scope: `Ok(None)` for an inert
/// annotation, `Ok(Some(..))` for a well-formed directive, and the fault
/// of a directive that is not well formed.
pub open spec fn directive_of(annotation: AnnotationView, scope: Scope) -> Result<
    Option<DirectiveView>,
    Fault,
> {
    match expected(annotation, scope) {
        Err(fault) => Err(fault),
        Ok(None) => Ok(None),
        Ok(Some(name)) => {
            let built = match name {
                DirectiveName::Stripped => stripped_of(annotation.argument_tokens, scope),
                DirectiveName::StrippedMeta => stripped_meta_of(annotation.argument_tokens),
            };
            match built {
                Ok(directive) => Ok(Some(directive)),
                Err(fault) => Err(fault),
            }
        },
    }
}

/// The value of an optional directive.
pub open spec fn optional_directive_view(directive: Option<Directive>) -> Option<DirectiveView> {
    match directive {
        Some(d) => Some(d@),
        None => None,
    }
}

/// The value of the outcome of interpreting an annotation.
pub open spec fn outcome_view(outcome: Result<Option<Directive>, Fault>) -> Result<
    Option<DirectiveView>,
    Fault,
> {
    match outcome {
        Ok(directive) => Ok(optional_directive_view(directive)),
        Err(fault) => Err(fault),
    }
}

/// Interprets one annotation at a scope.
pub fn parse_directive(annotation: &Annotation, scope: Scope) -> (outcome: Result<
    Option<Directive>,
    Fault,
>)
    ensures
        outcome_view(outcome) == directive_of(annotation@, scope),
{
    match expect(annotation, scope) {
        Err(fault) => Err(fault),
        Ok(None) => Ok(None),
        Ok(Some(name)) => {
            let built = match name {
                DirectiveName::Stripped => parse_stripped(
                    annotation.argument_tokens.as_str(),
                    scope,
                ),
                DirectiveName::StrippedMeta => parse_stripped_meta(
                    annotation.argument_tokens.as_str(),
                ),
            };
            match built {
                Ok(directive) => Ok(Some(directive)),
                Err(fault) => Err(fault),
            }
        },
    }
}

} // verus!
