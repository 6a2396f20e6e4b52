//! Documentation nodes: what a schema says about itself, for readers and for tools.
use vstd::prelude::*;
use crate::basics::AnyURI;

verus! {

/// An `annotation` element: remarks attached to a schema component, some for people and
/// some for programs.
#[derive(Debug, PartialEq, Eq)]
pub struct Annotation {
    /// The `namespace` attribute, where one was written on the element.
    pub namespace: Option<String>,
    /// The entries, in document order.
    pub body: Vec<AnnotationBody>,
}

/// One entry of an annotation.
#[derive(Debug, PartialEq, Eq)]
pub enum AnnotationBody {
    /// An `appinfo` element.
    AppInfo(AppInfo),
    /// A `documentation` element.
    Documentation(Documentation),
}

/// An `appinfo` element: information meant for a program that processes the schema.
#[derive(Debug, PartialEq, Eq)]
pub struct AppInfo {
    /// The `source` attribute: where the information comes from.
    pub source: Option<AnyURI>,
}

/// A `documentation` element: text meant for a human reader.
#[derive(Debug, PartialEq, Eq)]
pub struct Documentation {
    /// The `source` attribute: where further documentation is found.
    pub source: Option<String>,
    /// The `xml:lang` attribute: the language of the text.
    pub xml_lang: Option<String>,
    /// The pieces of text, in document order.
    pub body: Vec<String>,
}

} // verus!
