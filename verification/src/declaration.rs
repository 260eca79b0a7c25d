//! The structured form in which declarations are exchanged with the host.
//!
//! The host turns program text into a [`SourceDeclaration`], hands it to the
//! transformation, and splices the returned [`OutputDeclaration`] back into
//! the program. Token sequences that the engine never looks into (argument
//! tokens, visibility) travel as text.

use vstd::prelude::*;

verus! {

/// What sort of type a declaration introduces.
#[derive(Clone, Copy, Debug, PartialEq, Eq, Structural)]
pub enum Kind {
    Enum,
    Struct,
    Union,
}

/// The bracket pair around the arguments of a list-shaped annotation.
#[derive(Clone, Copy, Debug, PartialEq, Eq, Structural)]
pub enum Delimiter {
    Parenthesis,
    Bracket,
    Brace,
}

/// The structural shape of an annotation, fixed when it is parsed.
#[derive(Clone, Copy, Debug, PartialEq, Eq, Structural)]
pub enum Shape {
    /// A bare path: `name`.
    Path,
    /// A path followed by delimited arguments: `name(...)`.
    List(Delimiter),
    /// A path followed by `=` and a value: `name = value`.
    NameValue,
}

/// A structured tag attached to a declaration or to one of its variants.
///
/// `argument_tokens` holds the text between the delimiters for a list, the
/// text of the value for a name-value pair, and nothing for a bare path.
#[derive(Debug)]
pub struct Annotation {
    pub shape: Shape,
    pub path: String,
    pub argument_tokens: String,
}

/// The mathematical value of an [`Annotation`].
pub ghost struct AnnotationView {
    pub shape: Shape,
    pub path: Seq<char>,
    pub argument_tokens: Seq<char>,
}

impl View for Annotation {
    type V = AnnotationView;

    open spec fn view(&self) -> AnnotationView {
        AnnotationView {
            shape: self.shape,
            path: self.path@,
            argument_tokens: self.argument_tokens@,
        }
    }
}

impl Clone for Annotation {
    fn clone(&self) -> (copy: Self)
        ensures
            copy@ == self@,
    {
        Annotation {
            shape: self.shape,
            path: self.path.clone(),
            argument_tokens: self.argument_tokens.clone(),
        }
    }
}

/// The values of a sequence of annotations, in order.
pub open spec fn annotation_views(annotations: Seq<Annotation>) -> Seq<AnnotationView> {
    annotations.map_values(|a: Annotation| a@)
}

/// One named case of an enum. A payload, if the source has one, is not
/// carried: the transformation never needs it.
#[derive(Debug)]
pub struct Variant {
    pub identifier: String,
    pub annotations: Vec<Annotation>,
}

/// The mathematical value of a [`Variant`].
pub ghost struct VariantView {
    pub identifier: Seq<char>,
    pub annotations: Seq<AnnotationView>,
}

impl View for Variant {
    type V = VariantView;

    open spec fn view(&self) -> VariantView {
        VariantView {
            identifier: self.identifier@,
            annotations: annotation_views(self.annotations@),
        }
    }
}

/// An annotated type declaration as the host describes it.
#[derive(Debug)]
pub struct SourceDeclaration {
    pub kind: Kind,
    pub identifier: String,
    pub visibility: String,
    pub variants: Vec<Variant>,
    pub annotations: Vec<Annotation>,
}

/// The mathematical value of a [`SourceDeclaration`].
pub ghost struct SourceView {
    pub kind: Kind,
    pub identifier: Seq<char>,
    pub visibility: Seq<char>,
    pub variants: Seq<VariantView>,
    pub annotations: Seq<AnnotationView>,
}

impl View for SourceDeclaration {
    type V = SourceView;

    open spec fn view(&self) -> SourceView {
        SourceView {
            kind: self.kind,
            identifier: self.identifier@,
            visibility: self.visibility@,
            variants: self.variants@.map_values(|v: Variant| v@),
            annotations: annotation_views(self.annotations@),
        }
    }
}

/// The derived declaration: an enum whose variants carry no payload.
#[derive(Debug)]
pub struct OutputDeclaration {
    pub identifier: String,
    pub visibility: String,
    pub variants: Vec<String>,
    pub annotations: Vec<Annotation>,
}

/// The mathematical value of an [`OutputDeclaration`].
pub ghost struct OutputView {
    pub identifier: Seq<char>,
    pub visibility: Seq<char>,
    pub variants: Seq<Seq<char>>,
    pub annotations: Seq<AnnotationView>,
}

impl View for OutputDeclaration {
    type V = OutputView;

    open spec fn view(&self) -> OutputView {
        OutputView {
            identifier: self.identifier@,
            visibility: self.visibility@,
            variants: self.variants@.map_values(|v: String| v@),
            annotations: annotation_views(self.annotations@),
        }
    }
}

} // verus!
