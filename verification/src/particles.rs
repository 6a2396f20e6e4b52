//! Particles: the building blocks of a content model.
//!
//! A content model says which children an element of a complex type may have. It
//! is built from element declarations, wildcards and group references, which the
//! compositors `sequence`, `choice` and `all` combine, to any depth.
use vstd::prelude::*;
use crate::annotation::Annotation;
use crate::attribute::{FormChoice, ProcessContents};
use crate::basics::{NCName, QName, ID};
use crate::body::{
    extract_all, extract_singleton, held, lemma_matching_count, lemma_matching_selects,
    matching, matching_indices, positions, selects, sole, Pick,
};
use crate::complex_type::{Assert, ComplexType};
use crate::identity::{Key, Keyref, Unique};
use crate::lexical::{
    is_digit, literal_digits, parse_u32, same_text, u32_literal, unsigned_literal,
};
use crate::schema::{Block, Final};
use crate::simple_type::SimpleType;

verus! {

/// One unit of a content model. A read-only view: each case borrows the node that a
/// compositor's body holds.
#[derive(Debug, Clone, Copy, PartialEq, Eq)]
pub enum Particle<'a> {
    /// An element declaration, or a reference to one.
    Element(&'a Element),
    /// A nested choice.
    Choice(&'a Choice),
    /// A reference to a named model group.
    Group(&'a Group),
    /// A nested sequence.
    Sequence(&'a Sequence),
    /// An element wildcard.
    Any(&'a Any),
}

/// The upper occurrence bound of a particle.
#[derive(Debug, PartialEq, Eq)]
pub enum MaxOccurs {
    /// At most this many occurrences.
    Bounded(u32),
    /// Any number of occurrences. The field keeps the keyword as it was written.
    Unbounded(String),
}

impl MaxOccurs {
    /// Reads the value of a `maxOccurs` attribute. The keyword `unbounded`,
    /// written exactly so, lifts the bound; an unsigned integer literal that fits
    /// a `u32` sets it; any other value, a negative number among them, is
    /// rejected.
    pub fn parse(text: &str) -> (out: Option<MaxOccurs>)
        ensures
            match out {
                Some(MaxOccurs::Unbounded(keyword)) => text@ == UNBOUNDED@ && keyword@
                    == UNBOUNDED@,
                Some(MaxOccurs::Bounded(n)) => text@ != UNBOUNDED@ && u32_literal(text@) == Some(n),
                None => text@ != UNBOUNDED@ && u32_literal(text@) is None,
            },
    {
        if same_text(text, UNBOUNDED) {
            Some(MaxOccurs::Unbounded(text.to_owned()))
        } else {
            match parse_u32(text) {
                Some(n) => Some(MaxOccurs::Bounded(n)),
                None => None,
            }
        }
    }
}

/// The keyword that stands for "no upper bound".
pub const UNBOUNDED: &'static str = "unbounded";

/// The keyword for "no upper bound" is no integer literal, so the two readings
/// of a `maxOccurs` value never compete.
pub proof fn lemma_unbounded_is_no_number()
    ensures
        unsigned_literal(UNBOUNDED@) is None,
{
    reveal_strlit("unbounded");
    assert(!is_digit(literal_digits(UNBOUNDED@)[0]));
}

/// A `sequence` compositor: its particles have to occur in the order in which they are
/// written.
#[derive(Debug, PartialEq, Eq)]
pub struct Sequence {
    /// The `id` attribute: a name for this node that is unique in the document.
    pub id: Option<ID>,
    /// The `minOccurs` attribute: the least number of times the particle has to occur. The
    /// grammar's default, which callers apply, is one.
    pub min_occurs: Option<u32>,
    /// The `maxOccurs` attribute: the greatest number of times the particle may occur. The
    /// grammar's default, which callers apply, is one.
    pub max_occurs: Option<MaxOccurs>,
    /// The children, in document order.
    pub body: Vec<SequenceBody>,
}

impl Sequence {
    /// The annotation of this sequence: the one annotation among its children. Absent when
    /// the body holds none, and when it holds more than one.
    pub fn annotation(&self) -> (out: Option<&Annotation>)
        ensures
            out == sole::<SequenceBody, &Annotation>(self.body@),
    {
        extract_singleton::<SequenceBody, &Annotation>(&self.body)
    }

    /// The particles of this sequence: every child but an annotation, in document order,
    /// which is the order that the sequence demands.
    pub fn items(&self) -> (out: Vec<Particle<'_>>)
        ensures
            out@ == matching::<SequenceBody, Particle>(self.body@),
    {
        extract_all::<SequenceBody, Particle>(&self.body)
    }
}

/// One child of a `sequence`.
#[derive(Debug, PartialEq, Eq)]
pub enum SequenceBody {
    /// An `any` wildcard.
    Any(Any),
    /// An `annotation`.
    Annotation(Annotation),
    /// An `element` declaration or reference.
    Element(Element),
    /// A `group` reference.
    Group(Group),
    /// A nested `sequence`.
    Sequence(Sequence),
    /// A nested `choice`.
    Choice(Choice),
}

impl<'a> Pick<'a, &'a Annotation> for SequenceBody {
    open spec fn picked(&self) -> Option<&'a Annotation> {
        match self {
            SequenceBody::Annotation(e) => Some(e),
            _ => None,
        }
    }

    fn pick(&'a self) -> (v: Option<&'a Annotation>) {
        match self {
            SequenceBody::Annotation(e) => Some(e),
            _ => None,
        }
    }
}

impl<'a> Pick<'a, Particle<'a>> for SequenceBody {
    open spec fn picked(&self) -> Option<Particle<'a>> {
        match self {
            SequenceBody::Any(e) => Some(Particle::Any(e)),
            SequenceBody::Annotation(_) => None,
            SequenceBody::Element(e) => Some(Particle::Element(e)),
            SequenceBody::Group(e) => Some(Particle::Group(e)),
            SequenceBody::Sequence(e) => Some(Particle::Sequence(e)),
            SequenceBody::Choice(e) => Some(Particle::Choice(e)),
        }
    }

    fn pick(&'a self) -> (v: Option<Particle<'a>>) {
        match self {
            SequenceBody::Any(e) => Some(Particle::Any(e)),
            SequenceBody::Annotation(_) => None,
            SequenceBody::Element(e) => Some(Particle::Element(e)),
            SequenceBody::Group(e) => Some(Particle::Group(e)),
            SequenceBody::Sequence(e) => Some(Particle::Sequence(e)),
            SequenceBody::Choice(e) => Some(Particle::Choice(e)),
        }
    }
}

/// An `all` compositor: its particles may occur in any order. The grammar allows only
/// elements, wildcards and group references inside, and only the bounds zero and one on the
/// group itself; the bounds are stored as they were written.
#[derive(Debug, PartialEq, Eq)]
pub struct All {
    /// The `id` attribute: a name for this node that is unique in the document.
    pub id: Option<ID>,
    /// The `minOccurs` attribute: the least number of times the particle has to occur. The
    /// grammar's default, which callers apply, is one.
    pub min_occurs: Option<u32>,
    /// The `maxOccurs` attribute: the greatest number of times the particle may occur. The
    /// grammar's default, which callers apply, is one.
    pub max_occurs: Option<u32>,
    /// The children, in document order.
    pub body: Vec<AllBody>,
}

impl All {
    /// The annotation of this group: the one annotation among its children. Absent when the
    /// body holds none, and when it holds more than one.
    pub fn annotation(&self) -> (out: Option<&Annotation>)
        ensures
            out == sole::<AllBody, &Annotation>(self.body@),
    {
        extract_singleton::<AllBody, &Annotation>(&self.body)
    }

    /// The particles of this group: every child but an annotation, in document order.
    pub fn items(&self) -> (out: Vec<Particle<'_>>)
        ensures
            out@ == matching::<AllBody, Particle>(self.body@),
    {
        extract_all::<AllBody, Particle>(&self.body)
    }
}

/// One child of an `all` group.
#[derive(Debug, PartialEq, Eq)]
pub enum AllBody {
    /// An `annotation`.
    Annotation(Annotation),
    /// An `element` declaration or reference.
    Element(Element),
    /// An `any` wildcard.
    Any(Any),
    /// A `group` reference.
    Group(Group),
}

impl<'a> Pick<'a, &'a Annotation> for AllBody {
    open spec fn picked(&self) -> Option<&'a Annotation> {
        match self {
            AllBody::Annotation(e) => Some(e),
            _ => None,
        }
    }

    fn pick(&'a self) -> (v: Option<&'a Annotation>) {
        match self {
            AllBody::Annotation(e) => Some(e),
            _ => None,
        }
    }
}

impl<'a> Pick<'a, Particle<'a>> for AllBody {
    open spec fn picked(&self) -> Option<Particle<'a>> {
        match self {
            AllBody::Annotation(_) => None,
            AllBody::Element(e) => Some(Particle::Element(e)),
            AllBody::Any(e) => Some(Particle::Any(e)),
            AllBody::Group(e) => Some(Particle::Group(e)),
        }
    }

    fn pick(&'a self) -> (v: Option<Particle<'a>>) {
        match self {
            AllBody::Annotation(_) => None,
            AllBody::Element(e) => Some(Particle::Element(e)),
            AllBody::Any(e) => Some(Particle::Any(e)),
            AllBody::Group(e) => Some(Particle::Group(e)),
        }
    }
}

/// A `group` element: the definition of a named model group where it has a name, and a
/// reference to one where it has a `ref`.
#[derive(Debug, PartialEq, Eq)]
pub struct Group {
    /// The `id` attribute: a name for this node that is unique in the document.
    pub id: Option<ID>,
    /// The `name` attribute: the name that the definition gives the group.
    pub name: Option<NCName>,
    /// The `ref` attribute: the name of the group that is referred to.
    pub reference: Option<QName>,
    /// The `minOccurs` attribute: the least number of times the particle has to occur. The
    /// grammar's default, which callers apply, is one.
    pub min_occurs: Option<u32>,
    /// The `maxOccurs` attribute: the greatest number of times the particle may occur. The
    /// grammar's default, which callers apply, is one.
    pub max_occurs: Option<MaxOccurs>,
    /// The children, in document order.
    pub body: Vec<GroupBody>,
}

/// One child of a `group`.
#[derive(Debug, PartialEq, Eq)]
pub enum GroupBody {
    /// An `all` group.
    All(All),
    /// An `annotation`.
    Annotation(Annotation),
    /// An `assert`.
    Assert(Assert),
    /// A nested `choice`.
    Choice(Choice),
    /// A nested `sequence`.
    Sequence(Sequence),
}

/// A `choice` compositor: exactly one of its particles occurs.
#[derive(Debug, PartialEq, Eq)]
pub struct Choice {
    /// The `id` attribute: a name for this node that is unique in the document.
    pub id: Option<ID>,
    /// The `minOccurs` attribute: the least number of times the particle has to occur. The
    /// grammar's default, which callers apply, is one.
    pub min_occurs: Option<u32>,
    /// The `maxOccurs` attribute: the greatest number of times the particle may occur. The
    /// grammar's default, which callers apply, is one.
    pub max_occurs: Option<MaxOccurs>,
    /// The children, in document order.
    pub body: Vec<ChoiceBody>,
}

impl Choice {
    /// The annotation of this choice: the one annotation among its children. Absent when
    /// the body holds none, and when it holds more than one.
    pub fn annotation(&self) -> (out: Option<&Annotation>)
        ensures
            out == sole::<ChoiceBody, &Annotation>(self.body@),
    {
        extract_singleton::<ChoiceBody, &Annotation>(&self.body)
    }

    /// The alternatives of this choice: every child but an annotation, in document order.
    pub fn items(&self) -> (out: Vec<Particle<'_>>)
        ensures
            out@ == matching::<ChoiceBody, Particle>(self.body@),
    {
        extract_all::<ChoiceBody, Particle>(&self.body)
    }
}

/// One child of a `choice`.
#[derive(Debug, PartialEq, Eq)]
pub enum ChoiceBody {
    /// An `any` wildcard.
    Any(Any),
    /// An `annotation`.
    Annotation(Annotation),
    /// An `element` declaration or reference.
    Element(Element),
    /// A `group` reference.
    Group(Group),
    /// A nested `choice`.
    Choice(Choice),
    /// A nested `sequence`.
    Sequence(Sequence),
}

impl<'a> Pick<'a, &'a Annotation> for ChoiceBody {
    open spec fn picked(&self) -> Option<&'a Annotation> {
        match self {
            ChoiceBody::Annotation(e) => Some(e),
            _ => None,
        }
    }

    fn pick(&'a self) -> (v: Option<&'a Annotation>) {
        match self {
            ChoiceBody::Annotation(e) => Some(e),
            _ => None,
        }
    }
}

impl<'a> Pick<'a, Particle<'a>> for ChoiceBody {
    open spec fn picked(&self) -> Option<Particle<'a>> {
        match self {
            ChoiceBody::Any(e) => Some(Particle::Any(e)),
            ChoiceBody::Annotation(_) => None,
            ChoiceBody::Element(e) => Some(Particle::Element(e)),
            ChoiceBody::Group(e) => Some(Particle::Group(e)),
            ChoiceBody::Choice(e) => Some(Particle::Choice(e)),
            ChoiceBody::Sequence(e) => Some(Particle::Sequence(e)),
        }
    }

    fn pick(&'a self) -> (v: Option<Particle<'a>>) {
        match self {
            ChoiceBody::Any(e) => Some(Particle::Any(e)),
            ChoiceBody::Annotation(_) => None,
            ChoiceBody::Element(e) => Some(Particle::Element(e)),
            ChoiceBody::Group(e) => Some(Particle::Group(e)),
            ChoiceBody::Choice(e) => Some(Particle::Choice(e)),
            ChoiceBody::Sequence(e) => Some(Particle::Sequence(e)),
        }
    }
}

/// An `any` element: a wildcard that lets elements from chosen namespaces occur.
#[derive(Debug, PartialEq, Eq)]
pub struct Any {
    /// The `id` attribute: a name for this node that is unique in the document.
    pub id: Option<ID>,
    /// The `namespace` attribute: the namespaces whose elements may occur.
    pub namespace: Option<String>,
    /// The `notNamespace` attribute: the namespaces whose elements may not occur.
    pub not_namespace: Option<String>,
    /// The `notQName` attribute: the names that may not occur.
    pub not_q_name: Option<String>,
    /// The `processContents` attribute: how strictly the matched elements are validated.
    pub process_contents: Option<ProcessContents>,
    /// The `minOccurs` attribute: the least number of times the particle has to occur. The
    /// grammar's default, which callers apply, is one.
    pub min_occurs: Option<u32>,
    /// The `maxOccurs` attribute: the greatest number of times the particle may occur. The
    /// grammar's default, which callers apply, is one.
    pub max_occurs: Option<MaxOccurs>,
    /// The only child that the grammar allows here: an annotation.
    pub body: Option<Annotation>,
}

impl Any {
    /// The annotation of this wildcard, where one was given.
    pub fn annotation(&self) -> (out: Option<&Annotation>)
        ensures
            out == match &self.body {
                Some(a) => Some(a),
                None => None,
            },
    {
        match &self.body {
            Some(a) => Some(a),
            None => None,
        }
    }
}

/// An `element` element: the declaration of an element where it has a name, and a reference
/// to a global declaration where it has a `ref`.
#[derive(Debug, PartialEq, Eq)]
pub struct Element {
    /// The `id` attribute: a name for this node that is unique in the document.
    pub id: Option<ID>,
    /// The `name` attribute: the local name of the declared element.
    pub name: Option<NCName>,
    /// The `nillable` attribute: whether an instance may declare itself nil.
    pub nillable: Option<bool>,
    /// The `default` attribute: the value of an instance that is empty.
    pub default: Option<String>,
    /// The `final` attribute: the derivations that may not be used for substitution.
    pub final_derivations: Option<Final>,
    /// The `block` attribute: the derivations and substitutions that instances may not use.
    pub block: Option<Vec<Block>>,
    /// The `fixed` attribute: the only value that an instance may have.
    pub fixed: Option<String>,
    /// The `form` attribute: whether the name of a local element is qualified.
    pub form: Option<FormChoice>,
    /// The `abstract` attribute: whether only members of the substitution group may occur
    /// in instances.
    pub is_abstract: Option<bool>,
    /// The `type` attribute: the name of the element's type.
    pub declared_type: Option<QName>,
    /// The `substitutionGroup` attribute: the element for which this one can stand in.
    pub substitution_group: Option<QName>,
    /// The `minOccurs` attribute: the least number of times the particle has to occur. The
    /// grammar's default, which callers apply, is one.
    pub min_occurs: Option<u32>,
    /// The `maxOccurs` attribute: the greatest number of times the particle may occur. The
    /// grammar's default, which callers apply, is one.
    pub max_occurs: Option<MaxOccurs>,
    /// The `ref` attribute: the name of the global declaration that is referred to.
    pub reference: Option<QName>,
    /// The children, in document order.
    pub body: Vec<ElementBody>,
}

/// One child of an `element`.
#[derive(Debug, PartialEq, Eq)]
pub enum ElementBody {
    /// An `annotation`.
    Annotation(Annotation),
    /// An anonymous `simpleType`: the element's type, defined in place.
    SimpleType(SimpleType),
    /// An anonymous `complexType`: the element's type, defined in place.
    ComplexType(ComplexType),
    /// A `unique` constraint.
    Unique(Unique),
    /// A `key` constraint.
    Key(Key),
    /// A `keyref` constraint.
    Keyref(Keyref),
    /// An `alternative`. The element is recognised; nothing of it is kept.
    Alternative,
}

/// Every child of a sequence but an annotation stands for a particle, and an
/// annotation for none. So the items of a sequence are as many as its
/// non-annotation children, and by [`lemma_matching_selects`] the `k`-th item
/// is the `k`-th of them in document order.
pub proof fn lemma_sequence_items(body: Seq<SequenceBody>)
    ensures
        forall|i: int|
            0 <= i < body.len() ==> ((#[trigger] body[i]) is Annotation <==> held::<
                SequenceBody,
                Particle,
            >(body[i]) is None),
        matching_indices::<SequenceBody, Particle>(body) == Set::new(
            |i: int| 0 <= i < body.len() && !(body[i] is Annotation),
        ),
        matching::<SequenceBody, Particle>(body).len() == Set::new(
            |i: int| 0 <= i < body.len() && !(body[i] is Annotation),
        ).len(),
        selects::<SequenceBody, Particle>(
            body,
            matching::<SequenceBody, Particle>(body),
            positions::<SequenceBody, Particle>(body),
        ),
{
    lemma_matching_count::<SequenceBody, Particle>(body);
    lemma_matching_selects::<SequenceBody, Particle>(body);
    assert(matching_indices::<SequenceBody, Particle>(body) =~= Set::new(
        |i: int| 0 <= i < body.len() && !(body[i] is Annotation),
    ));
}

/// Every child of a choice but an annotation stands for a particle, and an
/// annotation for none. So the items of a choice are as many as its
/// non-annotation children, and by [`lemma_matching_selects`] the `k`-th item
/// is the `k`-th of them in document order.
pub proof fn lemma_choice_items(body: Seq<ChoiceBody>)
    ensures
        forall|i: int|
            0 <= i < body.len() ==> ((#[trigger] body[i]) is Annotation <==> held::<
                ChoiceBody,
                Particle,
            >(body[i]) is None),
        matching_indices::<ChoiceBody, Particle>(body) == Set::new(
            |i: int| 0 <= i < body.len() && !(body[i] is Annotation),
        ),
        matching::<ChoiceBody, Particle>(body).len() == Set::new(
            |i: int| 0 <= i < body.len() && !(body[i] is Annotation),
        ).len(),
        selects::<ChoiceBody, Particle>(
            body,
            matching::<ChoiceBody, Particle>(body),
            positions::<ChoiceBody, Particle>(body),
        ),
{
    lemma_matching_count::<ChoiceBody, Particle>(body);
    lemma_matching_selects::<ChoiceBody, Particle>(body);
    assert(matching_indices::<ChoiceBody, Particle>(body) =~= Set::new(
        |i: int| 0 <= i < body.len() && !(body[i] is Annotation),
    ));
}

/// Every child of an `all` group but an annotation stands for a particle, and
/// an annotation for none.
pub proof fn lemma_all_items(body: Seq<AllBody>)
    ensures
        forall|i: int|
            0 <= i < body.len() ==> ((#[trigger] body[i]) is Annotation <==> held::<
                AllBody,
                Particle,
            >(body[i]) is None),
        matching_indices::<AllBody, Particle>(body) == Set::new(
            |i: int| 0 <= i < body.len() && !(body[i] is Annotation),
        ),
        matching::<AllBody, Particle>(body).len() == Set::new(
            |i: int| 0 <= i < body.len() && !(body[i] is Annotation),
        ).len(),
        selects::<AllBody, Particle>(
            body,
            matching::<AllBody, Particle>(body),
            positions::<AllBody, Particle>(body),
        ),
{
    lemma_matching_count::<AllBody, Particle>(body);
    lemma_matching_selects::<AllBody, Particle>(body);
    assert(matching_indices::<AllBody, Particle>(body) =~= Set::new(
        |i: int| 0 <= i < body.len() && !(body[i] is Annotation),
    ));
}

} // verus!
