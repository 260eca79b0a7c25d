use quork::declaration::{
    Annotation, Delimiter, Kind, OutputDeclaration, Shape, SourceDeclaration, Variant,
};
use quork::diagnostic::{Anchor, Error, ErrorKind, Location};
use quork::directive::DirectiveName;
use quork::strip_enum::strip_enum;

/// The text that a token sequence is carried as.
fn tokens(text: &str) -> String {
    text.parse::<proc_macro2::TokenStream>().expect("tokens").to_string()
}

fn list(path: &str, arguments: &str) -> Annotation {
    Annotation {
        shape: Shape::List(Delimiter::Parenthesis),
        path: path.to_string(),
        argument_tokens: tokens(arguments),
    }
}

fn name_value(path: &str, value: &str) -> Annotation {
    Annotation { shape: Shape::NameValue, path: path.to_string(), argument_tokens: tokens(value) }
}

fn bare(path: &str) -> Annotation {
    Annotation { shape: Shape::Path, path: path.to_string(), argument_tokens: String::new() }
}

fn variant(identifier: &str, annotations: Vec<Annotation>) -> Variant {
    Variant { identifier: identifier.to_string(), annotations }
}

fn declaration(
    identifier: &str,
    annotations: Vec<Annotation>,
    variants: Vec<Variant>,
) -> SourceDeclaration {
    SourceDeclaration {
        kind: Kind::Enum,
        identifier: identifier.to_string(),
        visibility: String::new(),
        variants,
        annotations,
    }
}

fn same(left: &Annotation, right: &Annotation) -> bool {
    left.shape == right.shape
        && left.path == right.path
        && left.argument_tokens == right.argument_tokens
}

fn failure(source: &SourceDeclaration) -> Error {
    match strip_enum(source) {
        Ok(output) => panic!("accepted: {:?}", output),
        Err(error) => error,
    }
}

/// The name under which a variant is shown when the derived enum
/// serializes all of them in kebab case.
fn kebab_case(identifier: &str) -> String {
    let mut shown = String::new();
    for (position, c) in identifier.chars().enumerate() {
        if c.is_uppercase() && position > 0 {
            shown.push('-');
        }
        shown.extend(c.to_lowercase());
    }
    shown
}

/// Every variant of the derived enum, as it is shown, one after the other.
fn enum_to_string(output: &OutputDeclaration) -> String {
    let kebab = list("strum", "serialize_all = \"kebab-case\"");
    assert!(output.annotations.iter().any(|a| same(a, &kebab)));
    output.variants.iter().map(|v| kebab_case(v)).collect::<String>()
}

fn enum_with_data() -> SourceDeclaration {
    declaration(
        "EnumWithData",
        vec![
            list("stripped_meta", "derive(EnumIter, Display)"),
            list("stripped_meta", "strum(serialize_all = \"kebab-case\")"),
        ],
        vec![variant("Test1", vec![]), variant("Test2", vec![])],
    )
}

fn enum_exclude() -> SourceDeclaration {
    declaration(
        "EnumExclude",
        vec![
            list("stripped_meta", "derive(EnumIter, Display)"),
            list("stripped_meta", "strum(serialize_all = \"kebab-case\")"),
        ],
        vec![
            variant("Test1", vec![]),
            variant("Test2", vec![list("stripped", "ignore")]),
            variant("Test3", vec![]),
        ],
    )
}

#[test]
fn has_all_variants() {
    let output = strip_enum(&enum_with_data()).unwrap();
    let variants = enum_to_string(&output);

    assert_eq!(variants, "test1test2");
}

#[test]
fn excludes_no_hook_variant() {
    let output = strip_enum(&enum_exclude()).unwrap();
    let variants = enum_to_string(&output);

    assert_eq!(variants, "test1test3");
}

#[test]
fn derived_name_defaults_to_suffix() {
    let output = strip_enum(&enum_with_data()).unwrap();
    assert_eq!(output.identifier, "EnumWithDataStripped");
    let output = strip_enum(&declaration("Foo", vec![], vec![])).unwrap();
    assert_eq!(output.identifier, "FooStripped");
    assert!(output.variants.is_empty());
    assert!(output.annotations.is_empty());
}

#[test]
fn derived_name_follows_ident() {
    let source = declaration(
        "EnumWithCustomIdent",
        vec![
            list("stripped_meta", "derive(EnumIter)"),
            list("stripped_meta", "strum(serialize_all = \"kebab-case\")"),
            list("stripped", "ident = IChoseThisIdent"),
        ],
        vec![variant("Test1", vec![])],
    );
    let output = strip_enum(&source).unwrap();
    assert_eq!(output.identifier, "IChoseThisIdent");
    assert_eq!(output.variants, vec!["Test1".to_string()]);

    let source = declaration("Foo", vec![list("stripped", "ident = Bar")], vec![]);
    assert_eq!(strip_enum(&source).unwrap().identifier, "Bar");
}

#[test]
fn first_stripped_directive_names_the_declaration() {
    let source = declaration(
        "Foo",
        vec![list("stripped", "ident = First"), list("stripped", "ident = Second")],
        vec![],
    );
    assert_eq!(strip_enum(&source).unwrap().identifier, "First");

    let source =
        declaration("Foo", vec![list("stripped", ""), list("stripped", "ident = Second")], vec![]);
    assert_eq!(strip_enum(&source).unwrap().identifier, "FooStripped");
}

#[test]
fn last_ident_of_one_directive_counts() {
    let source = declaration("Foo", vec![list("stripped", "ident = A, ident = B,")], vec![]);
    assert_eq!(strip_enum(&source).unwrap().identifier, "B");
}

#[test]
fn ignored_variants_leave_in_order() {
    let ignore = || vec![list("stripped", "ignore")];
    let source = declaration(
        "Letters",
        vec![],
        vec![variant("A", vec![]), variant("B", ignore()), variant("C", vec![])],
    );
    assert_eq!(strip_enum(&source).unwrap().variants, vec!["A".to_string(), "C".to_string()]);

    let source = declaration(
        "Letters",
        vec![],
        vec![variant("A", ignore()), variant("B", ignore()), variant("C", ignore())],
    );
    assert!(strip_enum(&source).unwrap().variants.is_empty());

    let source = declaration(
        "Letters",
        vec![],
        vec![
            variant("A", vec![bare("default"), list("doc", "hidden")]),
            variant("B", vec![list("stripped", "")]),
            variant("C", vec![list("serde", "rename = \"c\""), list("stripped", "ignore")]),
            variant("A", vec![]),
        ],
    );
    assert_eq!(
        strip_enum(&source).unwrap().variants,
        vec!["A".to_string(), "B".to_string(), "A".to_string()]
    );
}

#[test]
fn metadata_is_composed_in_order_with_duplicates() {
    let source = declaration(
        "Foo",
        vec![
            list("stripped_meta", "derive(Debug)"),
            bare("non_exhaustive"),
            list("stripped_meta", "repr(u8)"),
            list("stripped_meta", "derive(Debug)"),
            list("stripped_meta", "must_use"),
            list("stripped_meta", "doc = \"shadow\""),
        ],
        vec![],
    );
    let output = strip_enum(&source).unwrap();
    let expected = vec![
        list("derive", "Debug"),
        list("repr", "u8"),
        list("derive", "Debug"),
        bare("must_use"),
        name_value("doc", "\"shadow\""),
    ];
    assert_eq!(output.annotations.len(), expected.len());
    for (got, wanted) in output.annotations.iter().zip(expected.iter()) {
        assert!(same(got, wanted), "{:?} is not {:?}", got, wanted);
    }
}

#[test]
fn nested_delimiter_is_kept() {
    let source = declaration("Foo", vec![list("stripped_meta", "cfg_attr[test, allow(x)]")], vec![]);
    let output = strip_enum(&source).unwrap();
    assert_eq!(output.annotations.len(), 1);
    assert_eq!(output.annotations[0].shape, Shape::List(Delimiter::Bracket));
    assert_eq!(output.annotations[0].path, "cfg_attr");
    assert_eq!(output.annotations[0].argument_tokens, tokens("test, allow(x)"));
}

#[test]
fn visibility_is_copied() {
    let mut source = enum_with_data();
    source.visibility = tokens("pub(crate)");
    assert_eq!(strip_enum(&source).unwrap().visibility, tokens("pub(crate)"));
}

#[test]
fn source_is_left_as_it_was() {
    let source = enum_exclude();
    let _ = strip_enum(&source).unwrap();
    assert_eq!(source.identifier, "EnumExclude");
    assert_eq!(source.variants.len(), 3);
    assert_eq!(source.annotations.len(), 2);
    assert_eq!(source.variants[1].annotations.len(), 1);
}

#[test]
fn end_to_end_event() {
    let source = declaration(
        "Event",
        vec![list("stripped_meta", "derive(Display)")],
        vec![
            variant("Create", vec![]),
            variant("Internal", vec![list("stripped", "ignore")]),
            variant("Delete", vec![]),
        ],
    );
    let output = strip_enum(&source).unwrap();
    assert_eq!(output.identifier, "EventStripped");
    assert_eq!(output.variants, vec!["Create".to_string(), "Delete".to_string()]);
    assert_eq!(output.annotations.len(), 1);
    assert!(same(&output.annotations[0], &list("derive", "Display")));
}

#[test]
fn non_enum_is_an_unsupported_target() {
    let expected = Error { kind: ErrorKind::UnsupportedTarget, location: Location::Declaration };

    let mut source = enum_exclude();
    source.kind = Kind::Struct;
    assert_eq!(failure(&source), expected);

    let mut source = declaration("Foo", vec![name_value("stripped", "1")], vec![]);
    source.kind = Kind::Union;
    assert_eq!(failure(&source), expected);
}

#[test]
fn name_value_stripped_is_malformed() {
    let source = declaration("Foo", vec![name_value("stripped", "\"ignore\"")], vec![]);
    assert_eq!(
        failure(&source),
        Error {
            kind: ErrorKind::MalformedDirective(DirectiveName::Stripped),
            location: Location::TypeAnnotation(0, Anchor::Annotation)
        }
    );

    let source = declaration(
        "Foo",
        vec![],
        vec![variant("A", vec![]), variant("B", vec![bare("doc"), bare("stripped")])],
    );
    assert_eq!(
        failure(&source),
        Error {
            kind: ErrorKind::MalformedDirective(DirectiveName::Stripped),
            location: Location::VariantAnnotation(1, 1, Anchor::Annotation)
        }
    );

    let source = declaration("Foo", vec![bare("inline"), bare("stripped_meta")], vec![]);
    assert_eq!(
        failure(&source),
        Error {
            kind: ErrorKind::MalformedDirective(DirectiveName::StrippedMeta),
            location: Location::TypeAnnotation(1, Anchor::Annotation)
        }
    );
}

#[test]
fn unknown_property_is_unsupported() {
    let at_type = |arguments: &str| {
        failure(&declaration("Foo", vec![list("stripped", arguments)], vec![]))
    };
    let at_entry = |position: usize| Error {
        kind: ErrorKind::UnsupportedProperty,
        location: Location::TypeAnnotation(0, Anchor::Entry(position)),
    };
    let expected = Error {
        kind: ErrorKind::UnsupportedProperty,
        location: Location::TypeAnnotation(0, Anchor::Annotation),
    };
    assert_eq!(at_type("rename = Bar"), at_entry(0));
    assert_eq!(at_type("ident"), at_entry(0));
    assert_eq!(at_type("ident = 1"), at_entry(0));
    assert_eq!(at_type("ident = fn"), expected);
    assert_eq!(at_type("ident = A B"), expected);
    assert_eq!(at_type("ident(Bar)"), at_entry(0));
    assert_eq!(at_type("ident = Bar, other"), at_entry(1));
    assert_eq!(at_type("ident = Bar ignore"), expected);
    assert_eq!(at_type(", ident = Bar"), expected);

    let at_variant = |arguments: &str| {
        failure(&declaration(
            "Foo",
            vec![],
            vec![variant("A", vec![list("stripped", arguments)])],
        ))
    };
    let at_entry = |position: usize| Error {
        kind: ErrorKind::UnsupportedProperty,
        location: Location::VariantAnnotation(0, 0, Anchor::Entry(position)),
    };
    let expected = Error {
        kind: ErrorKind::UnsupportedProperty,
        location: Location::VariantAnnotation(0, 0, Anchor::Annotation),
    };
    assert_eq!(at_variant("skip"), at_entry(0));
    assert_eq!(at_variant("ignore = true"), at_entry(0));
    assert_eq!(at_variant("ignore(all)"), at_entry(0));
    assert_eq!(at_variant("ignore, ident = Other, skip"), at_entry(2));
    assert_eq!(at_variant("ignore ignore"), expected);
}

#[test]
fn ignore_belongs_to_variants_only() {
    let source = declaration("Foo", vec![list("stripped", "ignore")], vec![]);
    assert_eq!(
        failure(&source),
        Error {
            kind: ErrorKind::UnsupportedProperty,
            location: Location::TypeAnnotation(0, Anchor::Entry(0))
        }
    );
}

#[test]
fn stripped_meta_on_a_variant_is_inert() {
    let source = declaration(
        "Foo",
        vec![],
        vec![variant("A", vec![name_value("stripped_meta", "1"), list("stripped_meta", "1 2")])],
    );
    let output = strip_enum(&source).unwrap();
    assert_eq!(output.variants, vec!["A".to_string()]);
    assert!(output.annotations.is_empty());
}

#[test]
fn invalid_metadata_is_reported_where_it_stands() {
    let at = |arguments: &str| {
        failure(&declaration(
            "Foo",
            vec![list("stripped_meta", "derive(Debug)"), list("stripped_meta", arguments)],
            vec![],
        ))
    };
    let expected = Error {
        kind: ErrorKind::InvalidMetadata,
        location: Location::TypeAnnotation(1, Anchor::Annotation),
    };
    assert_eq!(at(""), expected);
    assert_eq!(at("derive(Debug), derive(Clone)"), expected);
    assert_eq!(at("derive(Debug),"), expected);
    assert_eq!(at("\"text\""), expected);
    assert_eq!(at("a b"), expected);
}

#[test]
fn first_failure_wins() {
    // Variants are gone through before the declaration's own annotations.
    let source = declaration(
        "Foo",
        vec![bare("stripped")],
        vec![variant("A", vec![]), variant("B", vec![list("stripped", "nope")])],
    );
    assert_eq!(
        failure(&source),
        Error {
            kind: ErrorKind::UnsupportedProperty,
            location: Location::VariantAnnotation(1, 0, Anchor::Entry(0))
        }
    );

    // Among the declaration's annotations the first that fails is reported.
    let source = declaration(
        "Foo",
        vec![list("stripped", "ident = Bar"), list("stripped_meta", ""), bare("stripped")],
        vec![],
    );
    assert_eq!(
        failure(&source),
        Error {
            kind: ErrorKind::InvalidMetadata,
            location: Location::TypeAnnotation(1, Anchor::Annotation)
        }
    );

    // A later directive is checked even where an earlier one already
    // decides.
    let source = declaration(
        "Foo",
        vec![],
        vec![variant("A", vec![list("stripped", "ignore"), name_value("stripped", "1")])],
    );
    assert_eq!(
        failure(&source),
        Error {
            kind: ErrorKind::MalformedDirective(DirectiveName::Stripped),
            location: Location::VariantAnnotation(0, 1, Anchor::Annotation)
        }
    );
}

#[test]
fn unrelated_annotations_pass_through() {
    let source = declaration(
        "Foo",
        vec![
            list("derive", "Debug, Clone"),
            name_value("doc", "\"An enum\""),
            bare("non_exhaustive"),
            list("strip", "ignore"),
            list("Stripped", "nonsense ="),
            list(":: stripped", "ident = Bar"),
        ],
        vec![variant("A", vec![list("stripped_extra", "ignore")])],
    );
    let output = strip_enum(&source).unwrap();
    assert_eq!(output.identifier, "FooStripped");
    assert_eq!(output.variants, vec!["A".to_string()]);
    assert!(output.annotations.is_empty());
    assert_eq!(source.annotations.len(), 6);
}

#[test]
fn failures_explain_themselves() {
    let error = Error { kind: ErrorKind::UnsupportedTarget, location: Location::Declaration };
    assert_eq!(error.message(), "`Strip` can only be derived for enums");
    assert_eq!(error.hint(), None);

    let error = Error {
        kind: ErrorKind::MalformedDirective(DirectiveName::Stripped),
        location: Location::TypeAnnotation(0, Anchor::Annotation),
    };
    assert_eq!(
        error.message(),
        "Expected list-style (i.e #[stripped(...)]), found other style attribute macro"
    );
    assert_eq!(error.hint().unwrap(), "Write the directive as a list: #[stripped(...)]");

    let error = Error {
        kind: ErrorKind::MalformedDirective(DirectiveName::StrippedMeta),
        location: Location::TypeAnnotation(0, Anchor::Annotation),
    };
    assert_eq!(error.message(), "Expected #[stripped_meta(...)]. Found other style attribute.");
    assert_eq!(error.hint().unwrap(), "Write the directive as a list: #[stripped_meta(...)]");

    let error = Error {
        kind: ErrorKind::UnsupportedProperty,
        location: Location::VariantAnnotation(0, 0, Anchor::Entry(0)),
    };
    assert_eq!(error.message(), "Failed to parse attribute: unsupported property");
    let hint = error.hint().unwrap();
    assert!(hint.contains("`ident = Name`") && hint.contains("`ignore`"));

    let error = Error {
        kind: ErrorKind::InvalidMetadata,
        location: Location::TypeAnnotation(0, Anchor::Annotation),
    };
    assert_eq!(error.message(), "Failed to parse specified metadata");
    assert!(error.hint().unwrap().contains("Rust metadata"));
}

#[test]
fn groups_among_other_annotations_compose_in_order() {
    let source = declaration(
        "Foo",
        vec![
            list("derive", "Strip"),
            list("stripped_meta", "derive(Debug)"),
            name_value("doc", "\"An enum\""),
            list("stripped", "ident = Bar"),
            list("stripped_meta", "repr(u8)"),
            bare("non_exhaustive"),
        ],
        vec![],
    );
    let output = strip_enum(&source).unwrap();
    assert_eq!(output.annotations.len(), 2);
    assert!(same(&output.annotations[0], &list("derive", "Debug")));
    assert!(same(&output.annotations[1], &list("repr", "u8")));
}

#[test]
fn parsing_leaves_the_lexer_setting_to_the_process() {
    proc_macro2::fallback::force();
    let output = strip_enum(&enum_exclude()).unwrap();
    assert_eq!(output.variants, vec!["Test1".to_string(), "Test3".to_string()]);
    proc_macro2::fallback::unforce();
    let again = strip_enum(&enum_exclude()).unwrap();
    assert_eq!(again.variants, output.variants);
    assert_eq!(again.annotations.len(), output.annotations.len());
    for (left, right) in again.annotations.iter().zip(output.annotations.iter()) {
        assert!(same(left, right));
    }
}
