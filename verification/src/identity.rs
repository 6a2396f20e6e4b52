//! Identity constraints: uniqueness, keys and references to keys.
//!
//! Each names by a selector the elements it ranges over, and by one or more
//! fields the values that identify one of them. A reference to another
//! constraint is kept as a name and is not resolved here.
use vstd::prelude::*;
use crate::annotation::Annotation;
use crate::basics::{AnyURI, NCName, QName, ID};
use crate::body::{extract_singleton, sole, Pick};

verus! {

/// A `unique` element: among the selected elements, no two that have all the fields share
/// their values.
#[derive(Debug, PartialEq, Eq)]
pub struct Unique {
    /// The `id` attribute: a name for this node that is unique in the document.
    pub id: Option<ID>,
    /// The `name` attribute: the name of the constraint.
    pub name: NCName,
    /// The `ref` attribute: the name of a constraint defined elsewhere that this one
    /// repeats.
    pub reference: Option<QName>,
    /// The children, in document order.
    pub body: Vec<UniqueBody>,
}

impl Unique {
    /// The annotation of this constraint: the one annotation among its children. Absent
    /// when the body holds none, and when it holds more than one.
    pub fn annotation(&self) -> (out: Option<&Annotation>)
        ensures
            out == sole::<UniqueBody, &Annotation>(self.body@),
    {
        extract_singleton::<UniqueBody, &Annotation>(&self.body)
    }
}

/// One child of a `unique`.
#[derive(Debug, PartialEq, Eq)]
pub enum UniqueBody {
    /// An `annotation`.
    Annotation(Annotation),
    /// The `selector`: the elements that the constraint ranges over.
    Selector(Selector),
    /// A `field`: one value that identifies a selected element.
    Field(Field),
}

impl<'a> Pick<'a, &'a Annotation> for UniqueBody {
    open spec fn picked(&self) -> Option<&'a Annotation> {
        match self {
            UniqueBody::Annotation(e) => Some(e),
            _ => None,
        }
    }

    fn pick(&'a self) -> (v: Option<&'a Annotation>) {
        match self {
            UniqueBody::Annotation(e) => Some(e),
            _ => None,
        }
    }
}

/// A `selector` element: a path that picks the elements to which an identity constraint
/// applies.
#[derive(Debug, PartialEq, Eq)]
pub struct Selector {
    /// The `id` attribute: a name for this node that is unique in the document.
    pub id: Option<String>,
    /// The `xpath` attribute: the path, relative to the element that carries the
    /// constraint.
    pub xpath: String,
    /// The `xpathDefaultNamespace` attribute: the namespace of unprefixed names in the
    /// path.
    pub xpath_default_namespace: Option<AnyURI>,
    /// The only child that the grammar allows here: an annotation.
    pub body: Option<Annotation>,
}

impl Selector {
    /// The annotation of this selector, where one was given.
    pub fn annotation(&self) -> (out: Option<&Annotation>)
        ensures
            out == match &self.body {
                Some(a) => Some(a),
                None => None,
            },
    {
        match &self.body {
            Some(a) => Some(a),
            None => None,
        }
    }
}

/// A `key` element: every selected element has all the fields, and no two share their
/// values.
#[derive(Debug, PartialEq, Eq)]
pub struct Key {
    /// The `id` attribute: a name for this node that is unique in the document.
    pub id: Option<String>,
    /// The `name` attribute: the name of the constraint.
    pub name: Option<String>,
    /// The children, in document order.
    pub body: Vec<KeyBody>,
}

/// One child of a `key`.
#[derive(Debug, PartialEq, Eq)]
pub enum KeyBody {
    /// An `annotation`.
    Annotation(Annotation),
    /// The `selector`: the elements that the constraint ranges over.
    Selector(Selector),
    /// A `field`: one value that identifies a selected element.
    Field(Field),
}

/// A `keyref` element: the field values of every selected element occur as the values of
/// the key that is referred to.
#[derive(Debug, PartialEq, Eq)]
pub struct Keyref {
    /// The `id` attribute: a name for this node that is unique in the document.
    pub id: Option<String>,
    /// The `name` attribute: the name of the constraint.
    pub name: NCName,
    /// The `refer` attribute: the name of the key or uniqueness constraint whose values are
    /// referred to.
    pub refer: QName,
    /// The children, in document order.
    pub body: Vec<KeyrefBody>,
}

/// One child of a `keyref`.
#[derive(Debug, PartialEq, Eq)]
pub enum KeyrefBody {
    /// An `annotation`.
    Annotation(Annotation),
    /// The `selector`: the elements that the constraint ranges over.
    Selector(Selector),
    /// A `field`: one value that identifies a selected element.
    Field(Field),
}

/// A `field` element: a path that picks, for one selected element, one of the values that
/// identify it.
#[derive(Debug, PartialEq, Eq)]
pub struct Field {
    /// The `id` attribute: a name for this node that is unique in the document.
    pub id: Option<ID>,
    /// The `xpath` attribute: the path, relative to a selected element.
    pub xpath: String,
    /// The `xpathDefaultNamespace` attribute: the namespace of unprefixed names in the
    /// path.
    pub xpath_default_namespace: Option<AnyURI>,
    /// The only child that the grammar allows here: an annotation.
    pub body: Option<Annotation>,
}

impl Field {
    /// The annotation of this field, where one was given.
    pub fn annotation(&self) -> (out: Option<&Annotation>)
        ensures
            out == match &self.body {
                Some(a) => Some(a),
                None => None,
            },
    {
        match &self.body {
            Some(a) => Some(a),
            None => None,
        }
    }
}

} // verus!
