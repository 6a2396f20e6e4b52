//! Attribute declarations, attribute groups and attribute wildcards.
use vstd::prelude::*;
use crate::annotation::Annotation;
use crate::basics::{AnyURI, NCName, QName, ID};
use crate::body::{extract_singleton, sole, Pick};
use crate::simple_type::SimpleType;

verus! {

/// Whether a local name in an instance document carries the target namespace.
#[derive(Debug, Clone, Copy, PartialEq, Eq)]
pub enum FormChoice {
    /// The name is in the target namespace.
    Qualified,
    /// The name is in no namespace.
    Unqualified,
}

/// An `attribute` element: the declaration of an attribute where it has a name, and a
/// reference to a global declaration where it has a `ref`.
#[derive(Debug, PartialEq, Eq)]
pub struct Attribute {
    /// The `id` attribute: a name for this node that is unique in the document.
    pub id: Option<ID>,
    /// The `name` attribute: the local name of the declared attribute.
    pub name: Option<NCName>,
    /// The `type` attribute: the name of the attribute's simple type.
    pub declared_type: Option<QName>,
    /// The `use` attribute: whether an element has to carry the attribute.
    pub usage: Option<AttributeUse>,
    /// The `ref` attribute: the name of the global declaration that is referred to.
    pub reference: Option<QName>,
    /// The `default` attribute: the value taken where the attribute is not written.
    pub default: Option<String>,
    /// The `fixed` attribute: the only value that the attribute may have.
    pub fixed: Option<String>,
    /// The `form` attribute: whether the name of a local attribute is qualified.
    pub form: Option<FormChoice>,
    /// The `targetNamespace` attribute: the namespace of a local attribute, where it
    /// differs from the schema's.
    pub target_namespace: Option<AnyURI>,
    /// The `inheritable` attribute: whether descendants of the carrying element inherit the
    /// value.
    pub inheritable: Option<bool>,
    /// The children, in document order.
    pub body: Vec<AttributeBody>,
}

impl Attribute {
    /// The annotation of this attribute: the one annotation among its children. Absent when
    /// the body holds none, and when it holds more than one.
    pub fn annotation(&self) -> (out: Option<&Annotation>)
        ensures
            out == sole::<AttributeBody, &Annotation>(self.body@),
    {
        extract_singleton::<AttributeBody, &Annotation>(&self.body)
    }

    /// The type of this attribute where it is defined in place: the one `simpleType` among
    /// the children. Absent when the body holds none, and when it holds more than one.
    pub fn simple_type(&self) -> (out: Option<&SimpleType>)
        ensures
            out == sole::<AttributeBody, &SimpleType>(self.body@),
    {
        extract_singleton::<AttributeBody, &SimpleType>(&self.body)
    }
}

/// Whether an element has to carry an attribute.
#[derive(Debug, Clone, Copy, PartialEq, Eq)]
pub enum AttributeUse {
    /// The attribute may be left out.
    Optional,
    /// The attribute may not occur.
    Prohibited,
    /// The attribute has to occur.
    Required,
}

/// One child of an `attribute`.
#[derive(Debug, PartialEq, Eq)]
pub enum AttributeBody {
    /// An `annotation`.
    Annotation(Annotation),
    /// An anonymous `simpleType`.
    SimpleType(SimpleType),
}

impl<'a> Pick<'a, &'a Annotation> for AttributeBody {
    open spec fn picked(&self) -> Option<&'a Annotation> {
        match self {
            AttributeBody::Annotation(e) => Some(e),
            _ => None,
        }
    }

    fn pick(&'a self) -> (v: Option<&'a Annotation>) {
        match self {
            AttributeBody::Annotation(e) => Some(e),
            _ => None,
        }
    }
}

impl<'a> Pick<'a, &'a SimpleType> for AttributeBody {
    open spec fn picked(&self) -> Option<&'a SimpleType> {
        match self {
            AttributeBody::SimpleType(e) => Some(e),
            _ => None,
        }
    }

    fn pick(&'a self) -> (v: Option<&'a SimpleType>) {
        match self {
            AttributeBody::SimpleType(e) => Some(e),
            _ => None,
        }
    }
}

/// An `attributeGroup` element: the definition of a named set of attributes where it has a
/// name, and a reference to one where it has a `ref`.
#[derive(Debug, PartialEq, Eq)]
pub struct AttributeGroup {
    /// The `id` attribute: a name for this node that is unique in the document.
    pub id: Option<ID>,
    /// The `name` attribute: the name that the definition gives the group.
    pub name: Option<NCName>,
    /// The `ref` attribute: the name of the group that is referred to.
    pub reference: Option<QName>,
    /// The children, in document order.
    pub body: Vec<AttributeGroupBody>,
}

/// One child of an `attributeGroup`.
#[derive(Debug, PartialEq, Eq)]
pub enum AttributeGroupBody {
    /// An `annotation`.
    Annotation(Annotation),
    /// An `attribute`.
    Attribute(Attribute),
    /// An `anyAttribute` wildcard.
    AnyAttribute(AnyAttribute),
    /// A reference to another `attributeGroup`.
    AttributeGroup(AttributeGroup),
}

/// An `anyAttribute` element: a wildcard that lets attributes from chosen namespaces occur.
#[derive(Debug, PartialEq, Eq)]
pub struct AnyAttribute {
    /// The `id` attribute: a name for this node that is unique in the document.
    pub id: Option<ID>,
    /// The `namespace` attribute: the namespaces whose attributes may occur.
    pub namespace: Option<String>,
    /// The `notNamespace` attribute: the namespaces whose attributes may not occur.
    pub not_namespace: Option<String>,
    /// The `notQName` attribute: the names that may not occur.
    pub not_q_name: Option<String>,
    /// The `processContents` attribute: how strictly the matched attributes are validated.
    pub process_contents: Option<ProcessContents>,
    /// The only child that the grammar allows here: an annotation.
    pub body: Option<Annotation>,
}

impl AnyAttribute {
    /// The annotation of this wildcard, where one was given.
    pub fn annotation(&self) -> (out: Option<&Annotation>)
        ensures
            out == match &self.body {
                Some(a) => Some(a),
                None => None,
            },
    {
        match &self.body {
            Some(a) => Some(a),
            None => None,
        }
    }
}

/// How strictly what a wildcard matches is validated.
#[derive(Debug, Clone, Copy, PartialEq, Eq)]
pub enum ProcessContents {
    /// Validated where a declaration can be found.
    Lax,
    /// A declaration has to be found, and the item has to be valid.
    Strict,
    /// Only well-formedness is asked.
    Skip,
}

} // verus!
