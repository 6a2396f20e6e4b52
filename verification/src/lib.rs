//! A typed model of an XML Schema document and the queries that read it.
//!
//! A schema document is held as a tree of nodes, one type per element of the
//! schema language. A node that can have children of several kinds keeps them
//! in its `body`, in document order, and offers one query for each kind that a
//! reader may ask for. The queries read the body according to the grammar: a
//! child that may occur once is found only where it occurs exactly once, and
//! children that may repeat come back in the order in which they were written.
//! No query changes the tree.
pub mod annotation;
pub mod attribute;
pub mod basics;
pub mod body;
pub mod complex_type;
pub mod facets;
pub mod identity;
pub mod lexical;
pub mod particles;
pub mod schema;
pub mod simple_type;

pub use annotation::{Annotation, AnnotationBody, AppInfo, Documentation};
pub use attribute::{
    AnyAttribute, Attribute, AttributeBody, AttributeGroup, AttributeGroupBody, AttributeUse,
    FormChoice, ProcessContents,
};
pub use basics::{AnyURI, NCName, QName, Token, ID};
pub use complex_type::{
    Assert, ComplexContent, ComplexType, ComplexTypeBody, ContentBody, DefaultOpenContent,
    Extension, ExtensionBody, OpenContent, OpenContentBody, OpenContentMode, SimpleContent,
};
pub use identity::{Field, Key, KeyBody, Keyref, KeyrefBody, Selector, Unique, UniqueBody};
pub use schema::{
    Block, Final, Import, Include, Notation, Redefine, RedefineBody, Schema, SchemaBody,
};
pub use simple_type::{
    List, ListBody, Restriction, RestrictionBody, SimpleType, SimpleTypeBody, SimpleTypeContent,
    Union, UnionBody,
};
