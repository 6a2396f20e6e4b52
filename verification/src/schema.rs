//! The schema root and the declarations that only occur at the top level.
use vstd::prelude::*;
use crate::annotation::Annotation;
use crate::attribute::{Attribute, AttributeGroup, FormChoice};
use crate::basics::{AnyURI, Token, ID};
use crate::body::{extract_all, matching, Pick};
use crate::complex_type::{ComplexType, DefaultOpenContent};
use crate::particles::{Element, Group};
use crate::simple_type::SimpleType;

verus! {

/// A way of deriving a type that a `final` attribute can rule out.
#[derive(Debug, Clone, Copy, PartialEq, Eq)]
pub enum Final {
    /// Every derivation; written `#all`.
    All,
    /// Derivation by extension.
    Extension,
    /// Derivation by restriction.
    Restriction,
    /// Use as the item type of a list.
    List,
    /// Use as a member type of a union.
    Union,
}

/// A way of standing in for a declared type or element that a `block` attribute can rule
/// out.
#[derive(Debug, Clone, Copy, PartialEq, Eq)]
pub enum Block {
    /// Every way; written `#all`.
    All,
    /// A type derived by extension.
    Extension,
    /// A type derived by restriction.
    Restriction,
    /// A member of the substitution group.
    Substitution,
}

/// The `schema` element: the root of a schema document. It names the target namespace, sets
/// the defaults for the document, and holds every top-level declaration.
#[derive(Debug, PartialEq, Eq)]
pub struct Schema {
    /// The `id` attribute: a name for this node that is unique in the document.
    pub id: Option<ID>,
    /// The default namespace declared on the root element.
    pub xmlns: Option<String>,
    /// The `attributeFormDefault` attribute: the form of local attributes that set none.
    pub attribute_form_default: Option<FormChoice>,
    /// The `elementFormDefault` attribute: the form of local elements that set none.
    pub element_form_default: Option<FormChoice>,
    /// The `blockDefault` attribute: the `block` of declarations that set none.
    pub block_default: Option<Block>,
    /// The `finalDefault` attribute: the `final` of declarations that set none.
    pub final_default: Option<Vec<Final>>,
    /// The `targetNamespace` attribute: the namespace that the schema describes. It is the
    /// one setting that a schema has to give.
    pub target_namespace: AnyURI,
    /// The `version` attribute: a version of the schema itself.
    pub version: Option<Token>,
    /// The `defaultAttributes` attribute: the attribute group that every complex type gets.
    pub default_attributes: Option<String>,
    /// The `xpathDefaultNamespace` attribute: the namespace of unprefixed names in XPath
    /// expressions.
    pub xpath_default_namespace: Option<AnyURI>,
    /// The `minVersion` attribute: the oldest version of the schema language that can
    /// process the document.
    pub min_version: Option<String>,
    /// The `xml:lang` attribute: the language of the document's texts.
    pub xml_lang: Option<String>,
    /// The top-level declarations, in document order.
    pub body: Vec<SchemaBody>,
}

impl Schema {
    /// The global element declarations, in document order.
    pub fn elements(&self) -> (out: Vec<&Element>)
        ensures
            out@ == matching::<SchemaBody, &Element>(self.body@),
    {
        extract_all::<SchemaBody, &Element>(&self.body)
    }

    /// The named simple types, in document order.
    pub fn simple_types(&self) -> (out: Vec<&SimpleType>)
        ensures
            out@ == matching::<SchemaBody, &SimpleType>(self.body@),
    {
        extract_all::<SchemaBody, &SimpleType>(&self.body)
    }

    /// The named complex types, in document order.
    pub fn complex_types(&self) -> (out: Vec<&ComplexType>)
        ensures
            out@ == matching::<SchemaBody, &ComplexType>(self.body@),
    {
        extract_all::<SchemaBody, &ComplexType>(&self.body)
    }

    /// The annotations that stand directly under the root, in document order.
    pub fn annotations(&self) -> (out: Vec<&Annotation>)
        ensures
            out@ == matching::<SchemaBody, &Annotation>(self.body@),
    {
        extract_all::<SchemaBody, &Annotation>(&self.body)
    }

    /// The `include` elements, in document order.
    pub fn includes(&self) -> (out: Vec<&Include>)
        ensures
            out@ == matching::<SchemaBody, &Include>(self.body@),
    {
        extract_all::<SchemaBody, &Include>(&self.body)
    }

    /// The `import` elements, in document order.
    pub fn imports(&self) -> (out: Vec<&Import>)
        ensures
            out@ == matching::<SchemaBody, &Import>(self.body@),
    {
        extract_all::<SchemaBody, &Import>(&self.body)
    }

    /// The `redefine` elements, in document order.
    pub fn redefines(&self) -> (out: Vec<&Redefine>)
        ensures
            out@ == matching::<SchemaBody, &Redefine>(self.body@),
    {
        extract_all::<SchemaBody, &Redefine>(&self.body)
    }

    /// The named model groups, in document order.
    pub fn groups(&self) -> (out: Vec<&Group>)
        ensures
            out@ == matching::<SchemaBody, &Group>(self.body@),
    {
        extract_all::<SchemaBody, &Group>(&self.body)
    }

    /// The named attribute groups, in document order.
    pub fn attribute_groups(&self) -> (out: Vec<&AttributeGroup>)
        ensures
            out@ == matching::<SchemaBody, &AttributeGroup>(self.body@),
    {
        extract_all::<SchemaBody, &AttributeGroup>(&self.body)
    }

    /// The global attribute declarations, in document order.
    pub fn attributes(&self) -> (out: Vec<&Attribute>)
        ensures
            out@ == matching::<SchemaBody, &Attribute>(self.body@),
    {
        extract_all::<SchemaBody, &Attribute>(&self.body)
    }

    /// The notation declarations, in document order.
    pub fn notations(&self) -> (out: Vec<&Notation>)
        ensures
            out@ == matching::<SchemaBody, &Notation>(self.body@),
    {
        extract_all::<SchemaBody, &Notation>(&self.body)
    }

    /// The `defaultOpenContent` elements, in document order.
    pub fn default_open_contents(&self) -> (out: Vec<&DefaultOpenContent>)
        ensures
            out@ == matching::<SchemaBody, &DefaultOpenContent>(self.body@),
    {
        extract_all::<SchemaBody, &DefaultOpenContent>(&self.body)
    }
}

impl Default for Schema {
    /// A schema with an empty target namespace, no setting and no declaration.
    fn default() -> (out: Schema)
        ensures
            out.id is None,
            out.xmlns is None,
            out.attribute_form_default is None,
            out.element_form_default is None,
            out.block_default is None,
            out.final_default is None,
            out.target_namespace@ == Seq::<char>::empty(),
            out.version is None,
            out.default_attributes is None,
            out.xpath_default_namespace is None,
            out.min_version is None,
            out.xml_lang is None,
            out.body@ == Seq::<SchemaBody>::empty(),
    {
        Schema {
            id: None,
            xmlns: None,
            attribute_form_default: None,
            element_form_default: None,
            block_default: None,
            final_default: None,
            target_namespace: String::new(),
            version: None,
            default_attributes: None,
            xpath_default_namespace: None,
            min_version: None,
            xml_lang: None,
            body: Vec::new(),
        }
    }
}

/// One top-level child of a `schema`.
#[derive(Debug, PartialEq, Eq)]
pub enum SchemaBody {
    /// An `include`.
    Include(Include),
    /// An `import`.
    Import(Import),
    /// An `override`. The element is recognised; nothing of it is kept.
    Override,
    /// A `redefine`.
    Redefine(Redefine),
    /// An `annotation`.
    Annotation(Annotation),
    /// A `defaultOpenContent`.
    DefaultOpenContent(DefaultOpenContent),
    /// A `simpleType`.
    SimpleType(SimpleType),
    /// A `complexType`.
    ComplexType(ComplexType),
    /// A `group`.
    Group(Group),
    /// An `attributeGroup`.
    AttributeGroup(AttributeGroup),
    /// An `element`.
    Element(Box<Element>),
    /// An `attribute`.
    Attribute(Attribute),
    /// A `notation`.
    Notation(Notation),
}

impl<'a> Pick<'a, &'a Element> for SchemaBody {
    open spec fn picked(&self) -> Option<&'a Element> {
        match self {
            SchemaBody::Element(e) => Some(&**e),
            _ => None,
        }
    }

    fn pick(&'a self) -> (v: Option<&'a Element>) {
        match self {
            SchemaBody::Element(e) => Some(&**e),
            _ => None,
        }
    }
}

impl<'a> Pick<'a, &'a SimpleType> for SchemaBody {
    open spec fn picked(&self) -> Option<&'a SimpleType> {
        match self {
            SchemaBody::SimpleType(e) => Some(e),
            _ => None,
        }
    }

    fn pick(&'a self) -> (v: Option<&'a SimpleType>) {
        match self {
            SchemaBody::SimpleType(e) => Some(e),
            _ => None,
        }
    }
}

impl<'a> Pick<'a, &'a ComplexType> for SchemaBody {
    open spec fn picked(&self) -> Option<&'a ComplexType> {
        match self {
            SchemaBody::ComplexType(e) => Some(e),
            _ => None,
        }
    }

    fn pick(&'a self) -> (v: Option<&'a ComplexType>) {
        match self {
            SchemaBody::ComplexType(e) => Some(e),
            _ => None,
        }
    }
}

impl<'a> Pick<'a, &'a Annotation> for SchemaBody {
    open spec fn picked(&self) -> Option<&'a Annotation> {
        match self {
            SchemaBody::Annotation(e) => Some(e),
            _ => None,
        }
    }

    fn pick(&'a self) -> (v: Option<&'a Annotation>) {
        match self {
            SchemaBody::Annotation(e) => Some(e),
            _ => None,
        }
    }
}

impl<'a> Pick<'a, &'a Include> for SchemaBody {
    open spec fn picked(&self) -> Option<&'a Include> {
        match self {
            SchemaBody::Include(e) => Some(e),
            _ => None,
        }
    }

    fn pick(&'a self) -> (v: Option<&'a Include>) {
        match self {
            SchemaBody::Include(e) => Some(e),
            _ => None,
        }
    }
}

impl<'a> Pick<'a, &'a Import> for SchemaBody {
    open spec fn picked(&self) -> Option<&'a Import> {
        match self {
            SchemaBody::Import(e) => Some(e),
            _ => None,
        }
    }

    fn pick(&'a self) -> (v: Option<&'a Import>) {
        match self {
            SchemaBody::Import(e) => Some(e),
            _ => None,
        }
    }
}

impl<'a> Pick<'a, &'a Redefine> for SchemaBody {
    open spec fn picked(&self) -> Option<&'a Redefine> {
        match self {
            SchemaBody::Redefine(e) => Some(e),
            _ => None,
        }
    }

    fn pick(&'a self) -> (v: Option<&'a Redefine>) {
        match self {
            SchemaBody::Redefine(e) => Some(e),
            _ => None,
        }
    }
}

impl<'a> Pick<'a, &'a Group> for SchemaBody {
    open spec fn picked(&self) -> Option<&'a Group> {
        match self {
            SchemaBody::Group(e) => Some(e),
            _ => None,
        }
    }

    fn pick(&'a self) -> (v: Option<&'a Group>) {
        match self {
            SchemaBody::Group(e) => Some(e),
            _ => None,
        }
    }
}

impl<'a> Pick<'a, &'a AttributeGroup> for SchemaBody {
    open spec fn picked(&self) -> Option<&'a AttributeGroup> {
        match self {
            SchemaBody::AttributeGroup(e) => Some(e),
            _ => None,
        }
    }

    fn pick(&'a self) -> (v: Option<&'a AttributeGroup>) {
        match self {
            SchemaBody::AttributeGroup(e) => Some(e),
            _ => None,
        }
    }
}

impl<'a> Pick<'a, &'a Attribute> for SchemaBody {
    open spec fn picked(&self) -> Option<&'a Attribute> {
        match self {
            SchemaBody::Attribute(e) => Some(e),
            _ => None,
        }
    }

    fn pick(&'a self) -> (v: Option<&'a Attribute>) {
        match self {
            SchemaBody::Attribute(e) => Some(e),
            _ => None,
        }
    }
}

impl<'a> Pick<'a, &'a Notation> for SchemaBody {
    open spec fn picked(&self) -> Option<&'a Notation> {
        match self {
            SchemaBody::Notation(e) => Some(e),
            _ => None,
        }
    }

    fn pick(&'a self) -> (v: Option<&'a Notation>) {
        match self {
            SchemaBody::Notation(e) => Some(e),
            _ => None,
        }
    }
}

impl<'a> Pick<'a, &'a DefaultOpenContent> for SchemaBody {
    open spec fn picked(&self) -> Option<&'a DefaultOpenContent> {
        match self {
            SchemaBody::DefaultOpenContent(e) => Some(e),
            _ => None,
        }
    }

    fn pick(&'a self) -> (v: Option<&'a DefaultOpenContent>) {
        match self {
            SchemaBody::DefaultOpenContent(e) => Some(e),
            _ => None,
        }
    }
}

/// An `include` element: another schema document for the same target namespace, whose
/// declarations become part of this schema. The document is named, not loaded.
#[derive(Debug, PartialEq, Eq)]
pub struct Include {
    /// The `id` attribute: a name for this node that is unique in the document.
    pub id: Option<ID>,
    /// The `schemaLocation` attribute: where the included document is found.
    pub schema_location: AnyURI,
    /// The annotations of the element, in document order.
    pub annotations: Vec<Annotation>,
}

/// An `import` element: a namespace other than the target namespace whose components this
/// schema refers to. The namespace is named; nothing is loaded.
#[derive(Debug, PartialEq, Eq)]
pub struct Import {
    /// The `id` attribute: a name for this node that is unique in the document.
    pub id: Option<ID>,
    /// The `namespace` attribute: the imported namespace; absent for components in no
    /// namespace.
    pub namespace: Option<AnyURI>,
    /// The `schemaLocation` attribute: where a schema for the namespace is found.
    pub schema_location: AnyURI,
    /// The annotations of the element, in document order.
    pub annotations: Vec<Annotation>,
}

/// A `redefine` element: an included schema document, together with new definitions for
/// some of its types and groups.
#[derive(Debug, PartialEq, Eq)]
pub struct Redefine {
    /// The `id` attribute: a name for this node that is unique in the document.
    pub id: Option<ID>,
    /// The `schemaLocation` attribute: where the redefined document is found.
    pub schema_location: AnyURI,
    /// The children, in document order.
    pub body: Vec<RedefineBody>,
}

/// One child of a `redefine`.
#[derive(Debug, PartialEq, Eq)]
pub enum RedefineBody {
    /// An `annotation`.
    Annotation(Annotation),
    /// A `simpleType`.
    SimpleType(SimpleType),
    /// A `complexType`.
    ComplexType(ComplexType),
    /// A `group`.
    Group(Group),
    /// An `attributeGroup`.
    AttributeGroup(AttributeGroup),
}

/// A `notation` element: the name of a format for data that is not XML, with the
/// identifiers under which the format is known.
#[derive(Debug, PartialEq, Eq)]
pub struct Notation {
    /// The `id` attribute: a name for this node that is unique in the document.
    pub id: Option<ID>,
    /// The `name` attribute: the name of the notation.
    pub name: String,
    /// The `public` attribute: the public identifier of the format.
    pub public: String,
    /// The `system` attribute: the system identifier of the format.
    pub system: Option<String>,
}

} // verus!
