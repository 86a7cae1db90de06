//! The intent filters of a component.

use vstd::prelude::*;
use super::xml::{XmlElement, XmlNode};

verus! {

/// An `intent-filter` element of a component, by its action.
#[derive(Debug, Default, PartialEq, Eq)]
pub struct IntentFilter {
    pub action: String,
}

/// The action that `node` names: the attribute `android:name` of an
/// `action` element.
pub open spec fn action_of(node: XmlNode) -> Option<Seq<char>> {
    match node {
        XmlNode::Element(e) => if e.tag@ == "action"@ {
            e.attribute_of("android:name"@)
        } else {
            None
        },
        XmlNode::Cdata(_) => None,
    }
}

/// The first action that one of the first `k` nodes names.
pub open spec fn action_among(children: Seq<XmlNode>, k: nat) -> Option<Seq<char>>
    decreases k,
{
    if k == 0 {
        None
    } else {
        match action_among(children, (k - 1) as nat) {
            Some(a) => Some(a),
            None => action_of(children[k - 1]),
        }
    }
}

/// Once an action is found, it stays the first.
proof fn action_stays(children: Seq<XmlNode>, k: nat, n: nat)
    requires
        k <= n,
        action_among(children, k) is Some,
    ensures
        action_among(children, n) == action_among(children, k),
    decreases n - k,
{
    if k < n {
        action_stays(children, k, (n - 1) as nat);
    }
}

impl IntentFilter {
    /// The action that an `intent-filter` element gives: that of the first
    /// of its `action` children that has a name, or the empty string.
    pub open spec fn of(element: XmlElement) -> Seq<char> {
        match action_among(element.children@, element.children@.len()) {
            Some(a) => a,
            None => Seq::empty(),
        }
    }

    /// Reads an `intent-filter` element.
    pub fn from_element(element: &XmlElement) -> (r: IntentFilter)
        ensures
            r.action@ == Self::of(*element),
    {
        let mut i: usize = 0;
        while i < element.children.len()
            invariant
                i <= element.children@.len(),
                action_among(element.children@, i as nat) is None,
            decreases element.children.len() - i,
        {
            if let XmlNode::Element(child) = &element.children[i] {
                if child.has_tag("action") {
                    if let Some(action) = child.attribute("android:name") {
                        proof {
                            action_stays(
                                element.children@,
                                (i + 1) as nat,
                                element.children@.len(),
                            );
                        }
                        return IntentFilter { action: action.clone() };
                    }
                }
            }
            i += 1;
        }
        IntentFilter { action: String::new() }
    }
}

} // verus!
