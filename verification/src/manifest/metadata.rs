//! The meta-data of a component.

use vstd::prelude::*;
use super::xml::XmlElement;

verus! {

/// A `meta-data` element of a component, by its name.
#[derive(Debug, Default, PartialEq, Eq)]
pub struct Metadata {
    pub name: String,
}

/// The value of an attribute, or the empty string where it is missing.
pub open spec fn or_empty(value: Option<Seq<char>>) -> Seq<char> {
    match value {
        Some(v) => v,
        None => Seq::empty(),
    }
}

/// The value of the attribute `name` of `element`, or the empty string.
pub fn attribute_or_empty(element: &XmlElement, name: &str) -> (r: String)
    ensures
        r@ == or_empty(element.attribute_of(name@)),
{
    match element.attribute(name) {
        Some(v) => v.clone(),
        None => String::new(),
    }
}

impl Metadata {
    /// The name that a `meta-data` element gives: its attribute
    /// `android:name`, or the empty string.
    pub open spec fn of(element: XmlElement) -> Seq<char> {
        or_empty(element.attribute_of("android:name"@))
    }

    /// Reads a `meta-data` element.
    pub fn from_element(element: &XmlElement) -> (r: Metadata)
        ensures
            r.name@ == Self::of(*element),
    {
        Metadata { name: attribute_or_empty(element, "android:name") }
    }
}

} // verus!
