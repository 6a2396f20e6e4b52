//! Constraining facets: the nodes that narrow the value space of a simple type.
//!
//! A restriction holds its facets among its other children; `Restriction::facets`
//! gathers them into one list of [`Facet`] values.
use vstd::prelude::*;
use crate::annotation::Annotation;
use crate::basics::{AnyURI, ID};

verus! {

/// One constraining facet of a restriction, by kind. A read-only view: each case borrows
/// the node that the restriction's body holds.
#[derive(Debug, Clone, Copy, PartialEq, Eq)]
pub enum Facet<'a> {
    /// A `length` facet: the exact number of units of length.
    Length(&'a Length),
    /// A `minLength` facet.
    MinLength(&'a Length),
    /// A `maxLength` facet.
    MaxLength(&'a Length),
    /// A `pattern` facet.
    Pattern(&'a Pattern),
    /// A `whiteSpace` facet.
    WhiteSpace(&'a WhiteSpace),
    /// An `enumeration` facet: one permitted value.
    Enumeration(&'a Enumeration),
    /// A `minInclusive` facet: a lower bound that is itself allowed.
    MinInclusive(&'a BoundaryFacet),
    /// A `maxInclusive` facet: an upper bound that is itself allowed.
    MaxInclusive(&'a BoundaryFacet),
    /// A `minExclusive` facet: a lower bound that is not allowed.
    MinExclusive(&'a BoundaryFacet),
    /// A `maxExclusive` facet: an upper bound that is not allowed.
    MaxExclusive(&'a BoundaryFacet),
    /// A `totalDigits` facet.
    TotalDigits(&'a Digits),
    /// A `fractionDigits` facet.
    FractionDigits(&'a Digits),
    /// An `assertion` facet.
    Assertion(&'a Assertion),
    /// An `explicitTimezone` facet.
    ExplicitTimezone(&'a ExplicitTimezone),
}

/// An `enumeration` facet: one value that the restricted type permits. Several of them side
/// by side list all the permitted values.
#[derive(Debug, PartialEq, Eq)]
pub struct Enumeration {
    /// The `id` attribute: a name for this node that is unique in the document.
    pub id: Option<ID>,
    /// The `value` attribute: the permitted value, in the lexical form of the base type.
    pub value: String,
    /// The only child that the grammar allows here: an annotation.
    pub body: Option<Annotation>,
}

impl Enumeration {
    /// The annotation of this facet, where one was given.
    pub fn annotation(&self) -> (out: Option<&Annotation>)
        ensures
            out == match &self.body {
                Some(a) => Some(a),
                None => None,
            },
    {
        match &self.body {
            Some(a) => Some(a),
            None => None,
        }
    }
}

/// A `whiteSpace` facet: how white space in a value is normalised before the value is
/// checked.
#[derive(Debug, PartialEq, Eq)]
pub struct WhiteSpace {
    /// The `id` attribute: a name for this node that is unique in the document.
    pub id: Option<ID>,
    /// The `fixed` attribute: whether a type derived from this one may change the value.
    pub fixed: Option<bool>,
    /// The `value` attribute: the kind of normalisation.
    pub value: WhiteSpaceValue,
    /// The only child that the grammar allows here: an annotation.
    pub body: Option<Annotation>,
}

/// The ways in which white space can be normalised.
#[derive(Debug, Clone, Copy, PartialEq, Eq)]
pub enum WhiteSpaceValue {
    /// Nothing is changed.
    Preserve,
    /// After replacing, runs of spaces shrink to one and spaces at either end go.
    Collapse,
    /// Each tab, line feed and carriage return becomes a space.
    Replace,
}

/// A `pattern` facet: a regular expression that the lexical form of a value has to match.
#[derive(Debug, PartialEq, Eq)]
pub struct Pattern {
    /// The `id` attribute: a name for this node that is unique in the document.
    pub id: Option<String>,
    /// The `value` attribute: the regular expression.
    pub value: String,
    /// The only child that the grammar allows here: an annotation.
    pub body: Option<Annotation>,
}

impl Pattern {
    /// The annotation of this facet, where one was given.
    pub fn annotation(&self) -> (out: Option<&Annotation>)
        ensures
            out == match &self.body {
                Some(a) => Some(a),
                None => None,
            },
    {
        match &self.body {
            Some(a) => Some(a),
            None => None,
        }
    }
}

/// A `totalDigits` or `fractionDigits` facet: a bound on the number of decimal digits of a
/// value.
#[derive(Debug, PartialEq, Eq)]
pub struct Digits {
    /// The `id` attribute: a name for this node that is unique in the document.
    pub id: Option<ID>,
    /// The `fixed` attribute: whether a type derived from this one may change the value.
    pub fixed: Option<bool>,
    /// The `value` attribute: the number of digits.
    pub value: u32,
    /// The only child that the grammar allows here: an annotation.
    pub body: Option<Annotation>,
}

impl Digits {
    /// The annotation of this facet, where one was given.
    pub fn annotation(&self) -> (out: Option<&Annotation>)
        ensures
            out == match &self.body {
                Some(a) => Some(a),
                None => None,
            },
    {
        match &self.body {
            Some(a) => Some(a),
            None => None,
        }
    }
}

/// A `length`, `minLength` or `maxLength` facet: a bound on the number of units of length
/// of a value (characters, octets or list items, by the base type).
#[derive(Debug, PartialEq, Eq)]
pub struct Length {
    /// The `id` attribute: a name for this node that is unique in the document.
    pub id: Option<String>,
    /// The `fixed` attribute: whether a type derived from this one may change the value.
    pub fixed: Option<bool>,
    /// The `value` attribute: the number of units.
    pub value: u32,
    /// The only child that the grammar allows here: an annotation.
    pub body: Option<Annotation>,
}

impl Length {
    /// The annotation of this facet, where one was given.
    pub fn annotation(&self) -> (out: Option<&Annotation>)
        ensures
            out == match &self.body {
                Some(a) => Some(a),
                None => None,
            },
    {
        match &self.body {
            Some(a) => Some(a),
            None => None,
        }
    }
}

/// One of the four bounds on an ordered value space: `minInclusive`, `maxInclusive`,
/// `minExclusive` or `maxExclusive`. Which of them it is shows in the body entry that holds
/// it.
#[derive(Debug, PartialEq, Eq)]
pub struct BoundaryFacet {
    /// The `id` attribute: a name for this node that is unique in the document.
    pub id: Option<String>,
    /// The `fixed` attribute: whether a type derived from this one may change the value.
    pub fixed: Option<bool>,
    /// The `value` attribute: the bound, in the lexical form of the base type.
    pub value: String,
    /// The only child that the grammar allows here: an annotation.
    pub body: Option<Annotation>,
}

impl BoundaryFacet {
    /// The annotation of this facet, where one was given.
    pub fn annotation(&self) -> (out: Option<&Annotation>)
        ensures
            out == match &self.body {
                Some(a) => Some(a),
                None => None,
            },
    {
        match &self.body {
            Some(a) => Some(a),
            None => None,
        }
    }
}

/// An `assertion` facet: an XPath test that a value has to pass.
#[derive(Debug, PartialEq, Eq)]
pub struct Assertion {
    /// The `id` attribute: a name for this node that is unique in the document.
    pub id: Option<String>,
    /// The `test` attribute: the XPath expression.
    pub test: String,
    /// The `xpathDefaultNamespace` attribute: the namespace of unprefixed names in the
    /// test.
    pub xpath_default_namespace: Option<AnyURI>,
    /// The only child that the grammar allows here: an annotation.
    pub body: Option<Annotation>,
}

impl Assertion {
    /// The annotation of this facet, where one was given.
    pub fn annotation(&self) -> (out: Option<&Annotation>)
        ensures
            out == match &self.body {
                Some(a) => Some(a),
                None => None,
            },
    {
        match &self.body {
            Some(a) => Some(a),
            None => None,
        }
    }
}

/// An `explicitTimezone` facet: whether a date or time value has to carry a time zone.
#[derive(Debug, PartialEq, Eq)]
pub struct ExplicitTimezone {
    /// The `id` attribute: a name for this node that is unique in the document.
    pub id: Option<String>,
    /// The `fixed` attribute; false where it was not written.
    pub fixed: bool,
    /// The `value` attribute: the rule for the time zone.
    pub value: ExplicitTimezoneValue,
    /// The only child that the grammar allows here: an annotation.
    pub body: Option<Annotation>,
}

impl ExplicitTimezone {
    /// The annotation of this facet, where one was given.
    pub fn annotation(&self) -> (out: Option<&Annotation>)
        ensures
            out == match &self.body {
                Some(a) => Some(a),
                None => None,
            },
    {
        match &self.body {
            Some(a) => Some(a),
            None => None,
        }
    }
}

/// The rules that an `explicitTimezone` facet can set.
#[derive(Debug, Clone, Copy, PartialEq, Eq)]
pub enum ExplicitTimezoneValue {
    /// A time zone may be given.
    Optional,
    /// A time zone has to be given.
    Required,
    /// No time zone may be given.
    Prohibited,
}

} // verus!
