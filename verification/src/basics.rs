//! Names for the lexical kinds that attribute values belong to.
//!
//! Each is a plain string. The alias records which kind of value a field is
//! meant to hold; nothing here checks that a value has the lexical form.
use vstd::prelude::*;

verus! {

/// A reference to a resource: a URI, absolute or relative.
pub type AnyURI = String;

/// An identifier that no other node of the same document shares.
pub type ID = String;

/// A name without a colon: the local part of a qualified name.
pub type NCName = String;

/// A qualified name: an optional prefix, a colon, and a local part.
pub type QName = String;

/// A string whose white space has been collapsed: no leading, trailing or
/// doubled spaces, and no tabs or line breaks.
pub type Token = String;

} // verus!
