//! A decoded XML document: elements with a tag, attributes and children.

use vstd::prelude::*;
use crate::dex::order::same_string;

verus! {

/// An element of a document.
#[derive(Debug, PartialEq, Eq)]
pub struct XmlElement {
    pub tag: String,
    /// The attributes as pairs of name and value, in document order.
    pub attributes: Vec<(String, String)>,
    pub children: Vec<XmlNode>,
}

/// A node of a document: an element or character data.
#[derive(Debug, PartialEq, Eq)]
pub enum XmlNode {
    Element(XmlElement),
    Cdata(String),
}

/// The value of the first among the first `k` attributes that has the name
/// `name`.
pub open spec fn attribute_among(attributes: Seq<(String, String)>, name: Seq<char>, k: nat) -> Option<
    Seq<char>,
>
    decreases k,
{
    if k == 0 {
        None
    } else {
        match attribute_among(attributes, name, (k - 1) as nat) {
            Some(v) => Some(v),
            None => if attributes[k - 1].0@ == name {
                Some(attributes[k - 1].1@)
            } else {
                None
            },
        }
    }
}

impl XmlElement {
    /// The value of the attribute `name`: that of the first attribute with
    /// this name, if there is one.
    pub open spec fn attribute_of(self, name: Seq<char>) -> Option<Seq<char>> {
        attribute_among(self.attributes@, name, self.attributes@.len())
    }

    /// The value of the attribute `name`, if the element has it.
    pub fn attribute(&self, name: &str) -> (r: Option<&String>)
        ensures
            match r {
                Some(v) => self.attribute_of(name@) == Some(v@),
                None => self.attribute_of(name@) is None,
            },
    {
        let mut i: usize = 0;
        while i < self.attributes.len()
            invariant
                i <= self.attributes@.len(),
                attribute_among(self.attributes@, name@, i as nat) is None,
            decreases self.attributes.len() - i,
        {
            if same_string(self.attributes[i].0.as_str(), name) {
                proof {
                    found_stays(self.attributes@, name@, (i + 1) as nat, self.attributes@.len());
                }
                return Some(&self.attributes[i].1);
            }
            i += 1;
        }
        None
    }

    /// Whether the tag of the element is `tag`.
    pub fn has_tag(&self, tag: &str) -> (r: bool)
        ensures
            r == (self.tag@ == tag@),
    {
        same_string(self.tag.as_str(), tag)
    }
}

/// Once an attribute is found, it stays the first.
proof fn found_stays(attributes: Seq<(String, String)>, name: Seq<char>, k: nat, n: nat)
    requires
        k <= n,
        attribute_among(attributes, name, k) is Some,
    ensures
        attribute_among(attributes, name, n) == attribute_among(attributes, name, k),
    decreases n - k,
{
    if k < n {
        found_stays(attributes, name, k, (n - 1) as nat);
    }
}

} // verus!
