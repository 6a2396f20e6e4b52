//! Complex types: types whose values have attributes and child elements, and the
//! ways of deriving one from another.
use vstd::prelude::*;
use crate::annotation::Annotation;
use crate::attribute::{AnyAttribute, Attribute, AttributeGroup};
use crate::basics::{NCName, QName, ID};
use crate::body::{extract_all, extract_singleton, matching, sole, Pick};
use crate::particles::{All, Any, Choice, Group, Sequence};
use crate::schema::{Block, Final};
use crate::simple_type::Restriction;

verus! {

/// A `complexType` element: the definition of a type whose values are elements with
/// attributes and children. Its content is given by a content model written directly inside
/// (one of `all`, `sequence`, `choice` or a group reference), or by a `simpleContent` or
/// `complexContent` child that derives it from another type. The grammar lets only one of
/// these occur; the body keeps whatever was written.
#[derive(Debug, PartialEq, Eq)]
pub struct ComplexType {
    /// The `id` attribute: a name for this node that is unique in the document.
    pub id: Option<ID>,
    /// The `name` attribute; absent on a type that is defined in place.
    pub name: Option<NCName>,
    /// The `mixed` attribute: whether text may stand between the child elements.
    pub mixed: Option<bool>,
    /// The `final` attribute: the ways in which no further type may be derived from this
    /// one.
    pub final_derivations: Option<Vec<Final>>,
    /// The `block` attribute: the derivations that may not stand in for this type in an
    /// instance.
    pub block: Option<Vec<Block>>,
    /// The `abstract` attribute: whether only derived types may be used in instances.
    pub is_abstract: Option<bool>,
    /// The `type` attribute, where one was written.
    pub declared_type: Option<String>,
    /// Whether the schema's default attribute group applies to this type.
    pub default_attributes_apply: Option<bool>,
    /// The children, in document order.
    pub body: Vec<ComplexTypeBody>,
}

impl ComplexType {
    /// The annotation of this type: the one annotation among its children. Absent when the
    /// body holds none, and when it holds more than one.
    pub fn annotation(&self) -> (out: Option<&Annotation>)
        ensures
            out == sole::<ComplexTypeBody, &Annotation>(self.body@),
    {
        extract_singleton::<ComplexTypeBody, &Annotation>(&self.body)
    }

    /// The content model where it is an `all` group. The one `all` among the children.
    /// Absent when the body holds none, and when it holds more than one.
    pub fn all(&self) -> (out: Option<&All>)
        ensures
            out == sole::<ComplexTypeBody, &All>(self.body@),
    {
        extract_singleton::<ComplexTypeBody, &All>(&self.body)
    }

    /// The `assert` children, in document order.
    pub fn asserts(&self) -> (out: Vec<&Assert>)
        ensures
            out@ == matching::<ComplexTypeBody, &Assert>(self.body@),
    {
        extract_all::<ComplexTypeBody, &Assert>(&self.body)
    }

    /// The content model where it is a sequence. The one `sequence` among the children.
    /// Absent when the body holds none, and when it holds more than one.
    pub fn sequence(&self) -> (out: Option<&Sequence>)
        ensures
            out == sole::<ComplexTypeBody, &Sequence>(self.body@),
    {
        extract_singleton::<ComplexTypeBody, &Sequence>(&self.body)
    }

    /// The attributes declared directly in this type, in document order.
    pub fn attributes(&self) -> (out: Vec<&Attribute>)
        ensures
            out@ == matching::<ComplexTypeBody, &Attribute>(self.body@),
    {
        extract_all::<ComplexTypeBody, &Attribute>(&self.body)
    }

    /// The attribute groups that this type refers to, in document order.
    pub fn attribute_groups(&self) -> (out: Vec<&AttributeGroup>)
        ensures
            out@ == matching::<ComplexTypeBody, &AttributeGroup>(self.body@),
    {
        extract_all::<ComplexTypeBody, &AttributeGroup>(&self.body)
    }

    /// The attribute wildcard. The one `anyAttribute` among the children. Absent when the
    /// body holds none, and when it holds more than one.
    pub fn any_attribute(&self) -> (out: Option<&AnyAttribute>)
        ensures
            out == sole::<ComplexTypeBody, &AnyAttribute>(self.body@),
    {
        extract_singleton::<ComplexTypeBody, &AnyAttribute>(&self.body)
    }

    /// The content model where it is a reference to a named group. The one `group` among
    /// the children. Absent when the body holds none, and when it holds more than one.
    pub fn group(&self) -> (out: Option<&Group>)
        ensures
            out == sole::<ComplexTypeBody, &Group>(self.body@),
    {
        extract_singleton::<ComplexTypeBody, &Group>(&self.body)
    }

    /// The derivation from another complex type. The one `complexContent` among the
    /// children. Absent when the body holds none, and when it holds more than one.
    pub fn complex_content(&self) -> (out: Option<&ComplexContent>)
        ensures
            out == sole::<ComplexTypeBody, &ComplexContent>(self.body@),
    {
        extract_singleton::<ComplexTypeBody, &ComplexContent>(&self.body)
    }

    /// The derivation from a type with text content. The one `simpleContent` among the
    /// children. Absent when the body holds none, and when it holds more than one.
    pub fn simple_content(&self) -> (out: Option<&SimpleContent>)
        ensures
            out == sole::<ComplexTypeBody, &SimpleContent>(self.body@),
    {
        extract_singleton::<ComplexTypeBody, &SimpleContent>(&self.body)
    }

    /// The content model where it is a choice. The one `choice` among the children. Absent
    /// when the body holds none, and when it holds more than one.
    pub fn choice(&self) -> (out: Option<&Choice>)
        ensures
            out == sole::<ComplexTypeBody, &Choice>(self.body@),
    {
        extract_singleton::<ComplexTypeBody, &Choice>(&self.body)
    }
}

/// One child of a `complexType`.
#[derive(Debug, PartialEq, Eq)]
pub enum ComplexTypeBody {
    /// An `annotation`.
    Annotation(Annotation),
    /// An `all`.
    All(All),
    /// An `assert`.
    Assert(Assert),
    /// A `sequence`.
    Sequence(Sequence),
    /// An `attribute`.
    Attribute(Attribute),
    /// An `attributeGroup`.
    AttributeGroup(AttributeGroup),
    /// An `anyAttribute`.
    AnyAttribute(AnyAttribute),
    /// A `group`.
    Group(Group),
    /// A `complexContent`.
    ComplexContent(ComplexContent),
    /// A `simpleContent`.
    SimpleContent(SimpleContent),
    /// An `openContent`.
    OpenContent(OpenContent),
    /// A `choice`.
    Choice(Choice),
}

impl<'a> Pick<'a, &'a Annotation> for ComplexTypeBody {
    open spec fn picked(&self) -> Option<&'a Annotation> {
        match self {
            ComplexTypeBody::Annotation(e) => Some(e),
            _ => None,
        }
    }

    fn pick(&'a self) -> (v: Option<&'a Annotation>) {
        match self {
            ComplexTypeBody::Annotation(e) => Some(e),
            _ => None,
        }
    }
}

impl<'a> Pick<'a, &'a All> for ComplexTypeBody {
    open spec fn picked(&self) -> Option<&'a All> {
        match self {
            ComplexTypeBody::All(e) => Some(e),
            _ => None,
        }
    }

    fn pick(&'a self) -> (v: Option<&'a All>) {
        match self {
            ComplexTypeBody::All(e) => Some(e),
            _ => None,
        }
    }
}

impl<'a> Pick<'a, &'a Assert> for ComplexTypeBody {
    open spec fn picked(&self) -> Option<&'a Assert> {
        match self {
            ComplexTypeBody::Assert(e) => Some(e),
            _ => None,
        }
    }

    fn pick(&'a self) -> (v: Option<&'a Assert>) {
        match self {
            ComplexTypeBody::Assert(e) => Some(e),
            _ => None,
        }
    }
}

impl<'a> Pick<'a, &'a Sequence> for ComplexTypeBody {
    open spec fn picked(&self) -> Option<&'a Sequence> {
        match self {
            ComplexTypeBody::Sequence(e) => Some(e),
            _ => None,
        }
    }

    fn pick(&'a self) -> (v: Option<&'a Sequence>) {
        match self {
            ComplexTypeBody::Sequence(e) => Some(e),
            _ => None,
        }
    }
}

impl<'a> Pick<'a, &'a Attribute> for ComplexTypeBody {
    open spec fn picked(&self) -> Option<&'a Attribute> {
        match self {
            ComplexTypeBody::Attribute(e) => Some(e),
            _ => None,
        }
    }

    fn pick(&'a self) -> (v: Option<&'a Attribute>) {
        match self {
            ComplexTypeBody::Attribute(e) => Some(e),
            _ => None,
        }
    }
}

impl<'a> Pick<'a, &'a AttributeGroup> for ComplexTypeBody {
    open spec fn picked(&self) -> Option<&'a AttributeGroup> {
        match self {
            ComplexTypeBody::AttributeGroup(e) => Some(e),
            _ => None,
        }
    }

    fn pick(&'a self) -> (v: Option<&'a AttributeGroup>) {
        match self {
            ComplexTypeBody::AttributeGroup(e) => Some(e),
            _ => None,
        }
    }
}

impl<'a> Pick<'a, &'a AnyAttribute> for ComplexTypeBody {
    open spec fn picked(&self) -> Option<&'a AnyAttribute> {
        match self {
            ComplexTypeBody::AnyAttribute(e) => Some(e),
            _ => None,
        }
    }

    fn pick(&'a self) -> (v: Option<&'a AnyAttribute>) {
        match self {
            ComplexTypeBody::AnyAttribute(e) => Some(e),
            _ => None,
        }
    }
}

impl<'a> Pick<'a, &'a Group> for ComplexTypeBody {
    open spec fn picked(&self) -> Option<&'a Group> {
        match self {
            ComplexTypeBody::Group(e) => Some(e),
            _ => None,
        }
    }

    fn pick(&'a self) -> (v: Option<&'a Group>) {
        match self {
            ComplexTypeBody::Group(e) => Some(e),
            _ => None,
        }
    }
}

impl<'a> Pick<'a, &'a ComplexContent> for ComplexTypeBody {
    open spec fn picked(&self) -> Option<&'a ComplexContent> {
        match self {
            ComplexTypeBody::ComplexContent(e) => Some(e),
            _ => None,
        }
    }

    fn pick(&'a self) -> (v: Option<&'a ComplexContent>) {
        match self {
            ComplexTypeBody::ComplexContent(e) => Some(e),
            _ => None,
        }
    }
}

impl<'a> Pick<'a, &'a SimpleContent> for ComplexTypeBody {
    open spec fn picked(&self) -> Option<&'a SimpleContent> {
        match self {
            ComplexTypeBody::SimpleContent(e) => Some(e),
            _ => None,
        }
    }

    fn pick(&'a self) -> (v: Option<&'a SimpleContent>) {
        match self {
            ComplexTypeBody::SimpleContent(e) => Some(e),
            _ => None,
        }
    }
}

impl<'a> Pick<'a, &'a Choice> for ComplexTypeBody {
    open spec fn picked(&self) -> Option<&'a Choice> {
        match self {
            ComplexTypeBody::Choice(e) => Some(e),
            _ => None,
        }
    }

    fn pick(&'a self) -> (v: Option<&'a Choice>) {
        match self {
            ComplexTypeBody::Choice(e) => Some(e),
            _ => None,
        }
    }
}

/// A `defaultOpenContent` element: the open content that applies to every complex type of
/// the schema that sets none of its own.
#[derive(Debug, PartialEq, Eq)]
pub struct DefaultOpenContent {
    /// The `id` attribute: a name for this node that is unique in the document.
    pub id: Option<ID>,
    /// The `mode` attribute: where the additional elements may stand.
    pub mode: Option<OpenContentMode>,
    /// The `appliesToEmpty` attribute: whether the default also applies to types with empty
    /// content.
    pub applies_to_empty: Option<bool>,
    /// The children, in document order.
    pub body: Vec<OpenContentBody>,
}

impl DefaultOpenContent {
    /// The annotation of this `defaultOpenContent`: the one annotation among its children.
    /// Absent when the body holds none, and when it holds more than one.
    pub fn annotations(&self) -> (out: Option<&Annotation>)
        ensures
            out == sole::<OpenContentBody, &Annotation>(self.body@),
    {
        extract_singleton::<OpenContentBody, &Annotation>(&self.body)
    }

    /// The wildcard that says which additional elements are allowed. The one `any` among
    /// the children. Absent when the body holds none, and when it holds more than one.
    pub fn any(&self) -> (out: Option<&Any>)
        ensures
            out == sole::<OpenContentBody, &Any>(self.body@),
    {
        extract_singleton::<OpenContentBody, &Any>(&self.body)
    }
}

/// One child of an `openContent` or a `defaultOpenContent`.
#[derive(Debug, PartialEq, Eq)]
pub enum OpenContentBody {
    /// An `any` wildcard.
    Any(Any),
    /// An `annotation`.
    Annotation(Annotation),
}

impl<'a> Pick<'a, &'a Annotation> for OpenContentBody {
    open spec fn picked(&self) -> Option<&'a Annotation> {
        match self {
            OpenContentBody::Annotation(e) => Some(e),
            _ => None,
        }
    }

    fn pick(&'a self) -> (v: Option<&'a Annotation>) {
        match self {
            OpenContentBody::Annotation(e) => Some(e),
            _ => None,
        }
    }
}

impl<'a> Pick<'a, &'a Any> for OpenContentBody {
    open spec fn picked(&self) -> Option<&'a Any> {
        match self {
            OpenContentBody::Any(e) => Some(e),
            _ => None,
        }
    }

    fn pick(&'a self) -> (v: Option<&'a Any>) {
        match self {
            OpenContentBody::Any(e) => Some(e),
            _ => None,
        }
    }
}

/// Where the elements that open content adds may stand.
#[derive(Debug, Clone, Copy, PartialEq, Eq)]
pub enum OpenContentMode {
    /// Anywhere among the declared children.
    Interleave,
    /// Only after the declared children.
    Suffix,
}

/// An `openContent` element: elements beyond the content model that a complex type lets in.
#[derive(Debug, PartialEq, Eq)]
pub struct OpenContent {
    /// The `id` attribute: a name for this node that is unique in the document.
    pub id: Option<ID>,
    /// The `mode` attribute: where the additional elements may stand.
    pub mode: Option<OpenContentMode>,
    /// The children, in document order.
    pub body: Vec<OpenContentBody>,
}

impl OpenContent {
    /// The annotation of this `openContent`: the one annotation among its children. Absent
    /// when the body holds none, and when it holds more than one.
    pub fn annotations(&self) -> (out: Option<&Annotation>)
        ensures
            out == sole::<OpenContentBody, &Annotation>(self.body@),
    {
        extract_singleton::<OpenContentBody, &Annotation>(&self.body)
    }

    /// The wildcard that says which additional elements are allowed. The one `any` among
    /// the children. Absent when the body holds none, and when it holds more than one.
    pub fn any(&self) -> (out: Option<&Any>)
        ensures
            out == sole::<OpenContentBody, &Any>(self.body@),
    {
        extract_singleton::<OpenContentBody, &Any>(&self.body)
    }
}

/// A `simpleContent` element: a complex type with text content and attributes, derived from
/// a simple type or from another such complex type.
#[derive(Debug, PartialEq, Eq)]
pub struct SimpleContent {
    /// The `id` attribute: a name for this node that is unique in the document.
    pub id: Option<ID>,
    /// The children, in document order.
    pub body: Vec<ContentBody>,
}

impl SimpleContent {
    /// The annotation of this `simpleContent`: the one annotation among its children.
    /// Absent when the body holds none, and when it holds more than one.
    pub fn annotation(&self) -> (out: Option<&Annotation>)
        ensures
            out == sole::<ContentBody, &Annotation>(self.body@),
    {
        extract_singleton::<ContentBody, &Annotation>(&self.body)
    }
}

/// A `complexContent` element: a complex type derived from another complex type.
#[derive(Debug, PartialEq, Eq)]
pub struct ComplexContent {
    /// The `id` attribute: a name for this node that is unique in the document.
    pub id: Option<ID>,
    /// The `mixed` attribute: whether text may stand between the child elements.
    pub mixed: Option<bool>,
    /// The children, in document order.
    pub body: Vec<ContentBody>,
}

impl ComplexContent {
    /// The annotation of this `complexContent`: the one annotation among its children.
    /// Absent when the body holds none, and when it holds more than one.
    pub fn annotation(&self) -> (out: Option<&Annotation>)
        ensures
            out == sole::<ContentBody, &Annotation>(self.body@),
    {
        extract_singleton::<ContentBody, &Annotation>(&self.body)
    }
}

/// One child of a `simpleContent` or a `complexContent`.
#[derive(Debug, PartialEq, Eq)]
pub enum ContentBody {
    /// An `annotation`.
    Annotation(Annotation),
    /// A derivation by `restriction`.
    Restriction(Restriction),
    /// A derivation by `extension`.
    Extension(Extension),
}

impl<'a> Pick<'a, &'a Annotation> for ContentBody {
    open spec fn picked(&self) -> Option<&'a Annotation> {
        match self {
            ContentBody::Annotation(e) => Some(e),
            _ => None,
        }
    }

    fn pick(&'a self) -> (v: Option<&'a Annotation>) {
        match self {
            ContentBody::Annotation(e) => Some(e),
            _ => None,
        }
    }
}

/// An `extension` element: a type derived from a base type by adding to its content model
/// and its attributes.
#[derive(Debug, PartialEq, Eq)]
pub struct Extension {
    /// The `id` attribute: a name for this node that is unique in the document.
    pub id: Option<String>,
    /// The `base` attribute: the name of the type that is extended.
    pub base: QName,
    /// The children, in document order.
    pub body: Vec<ExtensionBody>,
}

impl Extension {
    /// The annotation of this extension: the one annotation among its children. Absent when
    /// the body holds none, and when it holds more than one.
    pub fn annotation(&self) -> (out: Option<&Annotation>)
        ensures
            out == sole::<ExtensionBody, &Annotation>(self.body@),
    {
        extract_singleton::<ExtensionBody, &Annotation>(&self.body)
    }

    /// The open content of the derived type. The one `openContent` among the children.
    /// Absent when the body holds none, and when it holds more than one.
    pub fn open_content(&self) -> (out: Option<&OpenContent>)
        ensures
            out == sole::<ExtensionBody, &OpenContent>(self.body@),
    {
        extract_singleton::<ExtensionBody, &OpenContent>(&self.body)
    }

    /// The `assert` children, in document order.
    pub fn asserts(&self) -> (out: Vec<&Assert>)
        ensures
            out@ == matching::<ExtensionBody, &Assert>(self.body@),
    {
        extract_all::<ExtensionBody, &Assert>(&self.body)
    }
}

/// One child of an `extension`.
#[derive(Debug, PartialEq, Eq)]
pub enum ExtensionBody {
    /// An `all`.
    All(All),
    /// An `assert`.
    Assert(Assert),
    /// A `group`.
    Group(Group),
    /// An `attribute`.
    Attribute(Attribute),
    /// An `anyAttribute`.
    AnyAttribute(AnyAttribute),
    /// An `attributeGroup`.
    AttributeGroup(AttributeGroup),
    /// A `sequence`.
    Sequence(Sequence),
    /// A `choice`.
    Choice(Choice),
    /// An `annotation`.
    Annotation(Annotation),
    /// An `openContent`.
    OpenContent(OpenContent),
}

impl<'a> Pick<'a, &'a Annotation> for ExtensionBody {
    open spec fn picked(&self) -> Option<&'a Annotation> {
        match self {
            ExtensionBody::Annotation(e) => Some(e),
            _ => None,
        }
    }

    fn pick(&'a self) -> (v: Option<&'a Annotation>) {
        match self {
            ExtensionBody::Annotation(e) => Some(e),
            _ => None,
        }
    }
}

impl<'a> Pick<'a, &'a OpenContent> for ExtensionBody {
    open spec fn picked(&self) -> Option<&'a OpenContent> {
        match self {
            ExtensionBody::OpenContent(e) => Some(e),
            _ => None,
        }
    }

    fn pick(&'a self) -> (v: Option<&'a OpenContent>) {
        match self {
            ExtensionBody::OpenContent(e) => Some(e),
            _ => None,
        }
    }
}

impl<'a> Pick<'a, &'a Assert> for ExtensionBody {
    open spec fn picked(&self) -> Option<&'a Assert> {
        match self {
            ExtensionBody::Assert(e) => Some(e),
            _ => None,
        }
    }

    fn pick(&'a self) -> (v: Option<&'a Assert>) {
        match self {
            ExtensionBody::Assert(e) => Some(e),
            _ => None,
        }
    }
}

/// An `assert` element: an XPath test that every element of a complex type has to pass.
#[derive(Debug, PartialEq, Eq)]
pub struct Assert {
    /// The `id` attribute: a name for this node that is unique in the document.
    pub id: Option<ID>,
    /// The `test` attribute: the XPath expression.
    pub test: Option<String>,
    /// The only child that the grammar allows here: an annotation.
    pub annotation: Option<Annotation>,
}

} // verus!
