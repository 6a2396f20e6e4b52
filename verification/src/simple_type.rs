//! Simple types: types whose values are text, and the three ways of deriving one.
use vstd::prelude::*;
use crate::annotation::Annotation;
use crate::attribute::{AnyAttribute, Attribute, AttributeGroup};
use crate::basics::{NCName, QName, ID};
use crate::body::{
    extract_all, extract_first, extract_singleton, first, held, lemma_first_cases, matching,
    sole, Pick,
};
use crate::complex_type::Assert;
use crate::facets::{
    Assertion, BoundaryFacet, Digits, Enumeration, ExplicitTimezone, Facet, Length, Pattern,
    WhiteSpace,
};
use crate::particles::{All, Choice, Group, Sequence};
use crate::schema::Final;

verus! {

/// A `simpleType` element: the definition of a type whose values are text. The type is
/// derived from others in exactly one of three ways: by restriction, as a list, or as a
/// union.
#[derive(Debug, PartialEq, Eq)]
pub struct SimpleType {
    /// The `id` attribute: a name for this node that is unique in the document.
    pub id: Option<ID>,
    /// The `final` attribute: the ways in which no further type may be derived from this
    /// one.
    pub final_derivations: Option<Final>,
    /// The `name` attribute; absent on a type that is defined in place.
    pub name: Option<NCName>,
    /// The children, in document order.
    pub body: Vec<SimpleTypeBody>,
}

impl SimpleType {
    /// The annotation of this type: the one annotation among its children. Absent when the
    /// body holds none, and when it holds more than one.
    pub fn annotation(&self) -> (out: Option<&Annotation>)
        ensures
            out == sole::<SimpleTypeBody, &Annotation>(self.body@),
    {
        extract_singleton::<SimpleTypeBody, &Annotation>(&self.body)
    }

    /// The derivation that defines this type: the first child that is a
    /// restriction, a union or a list. A body with no such child, an empty one
    /// among them, defines nothing, and that is an error.
    pub fn content(&self) -> (out: Result<SimpleTypeContent<'_>, String>)
        ensures
            match out {
                Ok(content) => first::<SimpleTypeBody, SimpleTypeContent>(self.body@) == Some(
                    content,
                ),
                Err(message) => first::<SimpleTypeBody, SimpleTypeContent>(self.body@) is None
                    && message@ == NO_CONTENT@,
            },
    {
        match extract_first::<SimpleTypeBody, SimpleTypeContent>(&self.body) {
            Some(content) => Ok(content),
            None => Err(NO_CONTENT.to_owned()),
        }
    }
}

/// What [`SimpleType::content`] reports for a type without a derivation.
pub const NO_CONTENT: &'static str =
    "SimpleType has no valid content (restriction, union, or list)";

/// One child of a `simpleType`.
#[derive(Debug, PartialEq, Eq)]
pub enum SimpleTypeBody {
    /// An `annotation`.
    Annotation(Annotation),
    /// A `restriction`.
    Restriction(Restriction),
    /// A `union`.
    Union(Union),
    /// A `list`.
    List(List),
}

impl<'a> Pick<'a, &'a Annotation> for SimpleTypeBody {
    open spec fn picked(&self) -> Option<&'a Annotation> {
        match self {
            SimpleTypeBody::Annotation(e) => Some(e),
            _ => None,
        }
    }

    fn pick(&'a self) -> (v: Option<&'a Annotation>) {
        match self {
            SimpleTypeBody::Annotation(e) => Some(e),
            _ => None,
        }
    }
}

impl<'a> Pick<'a, SimpleTypeContent<'a>> for SimpleTypeBody {
    open spec fn picked(&self) -> Option<SimpleTypeContent<'a>> {
        match self {
            SimpleTypeBody::Annotation(_) => None,
            SimpleTypeBody::Restriction(e) => Some(SimpleTypeContent::Restriction(e)),
            SimpleTypeBody::Union(e) => Some(SimpleTypeContent::Union(e)),
            SimpleTypeBody::List(e) => Some(SimpleTypeContent::List(e)),
        }
    }

    fn pick(&'a self) -> (v: Option<SimpleTypeContent<'a>>) {
        match self {
            SimpleTypeBody::Annotation(_) => None,
            SimpleTypeBody::Restriction(e) => Some(SimpleTypeContent::Restriction(e)),
            SimpleTypeBody::Union(e) => Some(SimpleTypeContent::Union(e)),
            SimpleTypeBody::List(e) => Some(SimpleTypeContent::List(e)),
        }
    }
}

/// The derivation that defines a simple type. A read-only view: each case borrows the node
/// that the type's body holds.
#[derive(Debug, Clone, Copy, PartialEq, Eq)]
pub enum SimpleTypeContent<'a> {
    /// The type narrows its base type.
    Restriction(&'a Restriction),
    /// The type's values are those of its member types.
    Union(&'a Union),
    /// The type's values are lists of values of its item type.
    List(&'a List),
}

/// Every child of a simple type but an annotation is a derivation. So the
/// content is missing exactly when the body holds annotations only, and it is
/// otherwise what the first child that is no annotation holds.
pub proof fn lemma_simple_type_content(body: Seq<SimpleTypeBody>)
    ensures
        forall|i: int|
            0 <= i < body.len() ==> ((#[trigger] body[i]) is Annotation <==> held::<
                SimpleTypeBody,
                SimpleTypeContent,
            >(body[i]) is None),
        (forall|i: int| 0 <= i < body.len() ==> (#[trigger] body[i]) is Annotation) <==> first::<
            SimpleTypeBody,
            SimpleTypeContent,
        >(body) is None,
        forall|i: int|
            0 <= i < body.len() && !((#[trigger] body[i]) is Annotation) && (forall|j: int|
                0 <= j < i ==> (#[trigger] body[j]) is Annotation) ==> first::<
                SimpleTypeBody,
                SimpleTypeContent,
            >(body) == held::<SimpleTypeBody, SimpleTypeContent>(body[i]),
{
    lemma_first_cases::<SimpleTypeBody, SimpleTypeContent>(body);
}

/// A `union` element: a type whose values are the values of all its member types.
#[derive(Debug, PartialEq, Eq)]
pub struct Union {
    /// The `id` attribute: a name for this node that is unique in the document.
    pub id: Option<ID>,
    /// The `memberTypes` attribute: the names of the member types that are defined
    /// elsewhere.
    pub member_types: Option<Vec<QName>>,
    /// The children, in document order.
    pub body: Vec<UnionBody>,
}

impl Union {
    /// The annotation of this union: the one annotation among its children. Absent when the
    /// body holds none, and when it holds more than one.
    pub fn annotation(&self) -> (out: Option<&Annotation>)
        ensures
            out == sole::<UnionBody, &Annotation>(self.body@),
    {
        extract_singleton::<UnionBody, &Annotation>(&self.body)
    }

    /// The types that are defined in place inside this union, in document order.
    pub fn simple_types(&self) -> (out: Vec<&SimpleType>)
        ensures
            out@ == matching::<UnionBody, &SimpleType>(self.body@),
    {
        extract_all::<UnionBody, &SimpleType>(&self.body)
    }
}

/// One child of a `union`.
#[derive(Debug, PartialEq, Eq)]
pub enum UnionBody {
    /// An anonymous `simpleType`.
    SimpleType(SimpleType),
    /// An `annotation`.
    Annotation(Annotation),
}

impl<'a> Pick<'a, &'a Annotation> for UnionBody {
    open spec fn picked(&self) -> Option<&'a Annotation> {
        match self {
            UnionBody::Annotation(e) => Some(e),
            _ => None,
        }
    }

    fn pick(&'a self) -> (v: Option<&'a Annotation>) {
        match self {
            UnionBody::Annotation(e) => Some(e),
            _ => None,
        }
    }
}

impl<'a> Pick<'a, &'a SimpleType> for UnionBody {
    open spec fn picked(&self) -> Option<&'a SimpleType> {
        match self {
            UnionBody::SimpleType(e) => Some(e),
            _ => None,
        }
    }

    fn pick(&'a self) -> (v: Option<&'a SimpleType>) {
        match self {
            UnionBody::SimpleType(e) => Some(e),
            _ => None,
        }
    }
}

/// A `list` element: a type whose values are white-space separated lists of values of one
/// item type.
#[derive(Debug, PartialEq, Eq)]
pub struct List {
    /// The `id` attribute: a name for this node that is unique in the document.
    pub id: Option<ID>,
    /// The `itemType` attribute: the name of the item type, where it is defined elsewhere.
    pub item_type: Option<QName>,
    /// The children, in document order.
    pub body: Vec<ListBody>,
}

impl List {
    /// The annotation of this list: the one annotation among its children. Absent when the
    /// body holds none, and when it holds more than one.
    pub fn annotation(&self) -> (out: Option<&Annotation>)
        ensures
            out == sole::<ListBody, &Annotation>(self.body@),
    {
        extract_singleton::<ListBody, &Annotation>(&self.body)
    }

    /// The types that are defined in place inside this list, in document order.
    pub fn simple_types(&self) -> (out: Vec<&SimpleType>)
        ensures
            out@ == matching::<ListBody, &SimpleType>(self.body@),
    {
        extract_all::<ListBody, &SimpleType>(&self.body)
    }
}

/// One child of a `list`.
#[derive(Debug, PartialEq, Eq)]
pub enum ListBody {
    /// An anonymous `simpleType`.
    SimpleType(SimpleType),
    /// An `annotation`.
    Annotation(Annotation),
}

impl<'a> Pick<'a, &'a Annotation> for ListBody {
    open spec fn picked(&self) -> Option<&'a Annotation> {
        match self {
            ListBody::Annotation(e) => Some(e),
            _ => None,
        }
    }

    fn pick(&'a self) -> (v: Option<&'a Annotation>) {
        match self {
            ListBody::Annotation(e) => Some(e),
            _ => None,
        }
    }
}

impl<'a> Pick<'a, &'a SimpleType> for ListBody {
    open spec fn picked(&self) -> Option<&'a SimpleType> {
        match self {
            ListBody::SimpleType(e) => Some(e),
            _ => None,
        }
    }

    fn pick(&'a self) -> (v: Option<&'a SimpleType>) {
        match self {
            ListBody::SimpleType(e) => Some(e),
            _ => None,
        }
    }
}

/// A `restriction` element: a type derived from a base type by narrowing it. Inside a
/// simple type it holds facets; inside the content of a complex type it may also hold a
/// content model and attributes.
#[derive(Debug, PartialEq, Eq)]
pub struct Restriction {
    /// The `id` attribute: a name for this node that is unique in the document.
    pub id: Option<ID>,
    /// The `base` attribute: the name of the type that is narrowed. Absent where the base
    /// type is defined in place.
    pub base: Option<QName>,
    /// The children, in document order.
    pub body: Vec<RestrictionBody>,
}

impl Restriction {
    /// The annotation of this restriction: the one annotation among its children. Absent
    /// when the body holds none, and when it holds more than one.
    pub fn annotation(&self) -> (out: Option<&Annotation>)
        ensures
            out == sole::<RestrictionBody, &Annotation>(self.body@),
    {
        extract_singleton::<RestrictionBody, &Annotation>(&self.body)
    }

    /// The base type where it is defined in place: the one `simpleType` among the children.
    /// Absent when the body holds none, and when it holds more than one.
    pub fn simple_type(&self) -> (out: Option<&SimpleType>)
        ensures
            out == sole::<RestrictionBody, &SimpleType>(self.body@),
    {
        extract_singleton::<RestrictionBody, &SimpleType>(&self.body)
    }

    /// The `assert` children, in document order.
    pub fn asserts(&self) -> (out: Vec<&Assert>)
        ensures
            out@ == matching::<RestrictionBody, &Assert>(self.body@),
    {
        extract_all::<RestrictionBody, &Assert>(&self.body)
    }

    /// The facets of this restriction, in document order, each under the kind that its
    /// element names. Children that are no facets are passed over: the annotation, a base
    /// type defined in place, the content model, attributes, and `assert` elements, which
    /// [`Restriction::asserts`] gives.
    pub fn facets(&self) -> (out: Vec<Facet<'_>>)
        ensures
            out@ == matching::<RestrictionBody, Facet>(self.body@),
    {
        extract_all::<RestrictionBody, Facet>(&self.body)
    }
}

/// One child of a `restriction`.
#[derive(Debug, PartialEq, Eq)]
pub enum RestrictionBody {
    /// A `pattern`.
    Pattern(Pattern),
    /// A `length`.
    Length(Length),
    /// An `annotation`.
    Annotation(Annotation),
    /// A `whiteSpace`.
    WhiteSpace(WhiteSpace),
    /// A `simpleType`.
    SimpleType(SimpleType),
    /// An `anyAttribute`.
    AnyAttribute(AnyAttribute),
    /// A `minInclusive`.
    MinInclusive(BoundaryFacet),
    /// A `maxInclusive`.
    MaxInclusive(BoundaryFacet),
    /// A `minExclusive`.
    MinExclusive(BoundaryFacet),
    /// A `maxExclusive`.
    MaxExclusive(BoundaryFacet),
    /// A `minLength`.
    MinLength(Length),
    /// A `maxLength`.
    MaxLength(Length),
    /// A `fractionDigits`.
    FractionDigits(Digits),
    /// A `totalDigits`.
    TotalDigits(Digits),
    /// An `enumeration`.
    Enumeration(Enumeration),
    /// A `sequence`.
    Sequence(Sequence),
    /// An `attribute`.
    Attribute(Attribute),
    /// An `attributeGroup`.
    AttributeGroup(AttributeGroup),
    /// A `group`.
    Group(Group),
    /// An `all`.
    All(All),
    /// A `choice`.
    Choice(Choice),
    /// An `assertion`.
    Assertion(Assertion),
    /// An `explicitTimezone`.
    ExplicitTimezone(ExplicitTimezone),
    /// An `assert`.
    Assert(Assert),
}

impl<'a> Pick<'a, &'a Annotation> for RestrictionBody {
    open spec fn picked(&self) -> Option<&'a Annotation> {
        match self {
            RestrictionBody::Annotation(e) => Some(e),
            _ => None,
        }
    }

    fn pick(&'a self) -> (v: Option<&'a Annotation>) {
        match self {
            RestrictionBody::Annotation(e) => Some(e),
            _ => None,
        }
    }
}

impl<'a> Pick<'a, &'a SimpleType> for RestrictionBody {
    open spec fn picked(&self) -> Option<&'a SimpleType> {
        match self {
            RestrictionBody::SimpleType(e) => Some(e),
            _ => None,
        }
    }

    fn pick(&'a self) -> (v: Option<&'a SimpleType>) {
        match self {
            RestrictionBody::SimpleType(e) => Some(e),
            _ => None,
        }
    }
}

impl<'a> Pick<'a, &'a Assert> for RestrictionBody {
    open spec fn picked(&self) -> Option<&'a Assert> {
        match self {
            RestrictionBody::Assert(e) => Some(e),
            _ => None,
        }
    }

    fn pick(&'a self) -> (v: Option<&'a Assert>) {
        match self {
            RestrictionBody::Assert(e) => Some(e),
            _ => None,
        }
    }
}

impl<'a> Pick<'a, Facet<'a>> for RestrictionBody {
    open spec fn picked(&self) -> Option<Facet<'a>> {
        match self {
            RestrictionBody::Pattern(e) => Some(Facet::Pattern(e)),
            RestrictionBody::Length(e) => Some(Facet::Length(e)),
            RestrictionBody::Annotation(_) => None,
            RestrictionBody::WhiteSpace(e) => Some(Facet::WhiteSpace(e)),
            RestrictionBody::SimpleType(_) => None,
            RestrictionBody::AnyAttribute(_) => None,
            RestrictionBody::MinInclusive(e) => Some(Facet::MinInclusive(e)),
            RestrictionBody::MaxInclusive(e) => Some(Facet::MaxInclusive(e)),
            RestrictionBody::MinExclusive(e) => Some(Facet::MinExclusive(e)),
            RestrictionBody::MaxExclusive(e) => Some(Facet::MaxExclusive(e)),
            RestrictionBody::MinLength(e) => Some(Facet::MinLength(e)),
            RestrictionBody::MaxLength(e) => Some(Facet::MaxLength(e)),
            RestrictionBody::FractionDigits(e) => Some(Facet::FractionDigits(e)),
            RestrictionBody::TotalDigits(e) => Some(Facet::TotalDigits(e)),
            RestrictionBody::Enumeration(e) => Some(Facet::Enumeration(e)),
            RestrictionBody::Sequence(_) => None,
            RestrictionBody::Attribute(_) => None,
            RestrictionBody::AttributeGroup(_) => None,
            RestrictionBody::Group(_) => None,
            RestrictionBody::All(_) => None,
            RestrictionBody::Choice(_) => None,
            RestrictionBody::Assertion(e) => Some(Facet::Assertion(e)),
            RestrictionBody::ExplicitTimezone(e) => Some(Facet::ExplicitTimezone(e)),
            RestrictionBody::Assert(_) => None,
        }
    }

    fn pick(&'a self) -> (v: Option<Facet<'a>>) {
        match self {
            RestrictionBody::Pattern(e) => Some(Facet::Pattern(e)),
            RestrictionBody::Length(e) => Some(Facet::Length(e)),
            RestrictionBody::Annotation(_) => None,
            RestrictionBody::WhiteSpace(e) => Some(Facet::WhiteSpace(e)),
            RestrictionBody::SimpleType(_) => None,
            RestrictionBody::AnyAttribute(_) => None,
            RestrictionBody::MinInclusive(e) => Some(Facet::MinInclusive(e)),
            RestrictionBody::MaxInclusive(e) => Some(Facet::MaxInclusive(e)),
            RestrictionBody::MinExclusive(e) => Some(Facet::MinExclusive(e)),
            RestrictionBody::MaxExclusive(e) => Some(Facet::MaxExclusive(e)),
            RestrictionBody::MinLength(e) => Some(Facet::MinLength(e)),
            RestrictionBody::MaxLength(e) => Some(Facet::MaxLength(e)),
            RestrictionBody::FractionDigits(e) => Some(Facet::FractionDigits(e)),
            RestrictionBody::TotalDigits(e) => Some(Facet::TotalDigits(e)),
            RestrictionBody::Enumeration(e) => Some(Facet::Enumeration(e)),
            RestrictionBody::Sequence(_) => None,
            RestrictionBody::Attribute(_) => None,
            RestrictionBody::AttributeGroup(_) => None,
            RestrictionBody::Group(_) => None,
            RestrictionBody::All(_) => None,
            RestrictionBody::Choice(_) => None,
            RestrictionBody::Assertion(e) => Some(Facet::Assertion(e)),
            RestrictionBody::ExplicitTimezone(e) => Some(Facet::ExplicitTimezone(e)),
            RestrictionBody::Assert(_) => None,
        }
    }
}

} // verus!
