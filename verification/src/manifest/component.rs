//! The components that a manifest declares.

use vstd::prelude::*;
use super::intent_filter::IntentFilter;
use super::metadata::{attribute_or_empty, or_empty, Metadata};
use super::xml::{XmlElement, XmlNode};

verus! {

/// An activity, service, receiver or provider of the application.
#[derive(Debug, Default, PartialEq, Eq)]
pub struct Component {
    pub name: String,
    pub intent_filters: Vec<IntentFilter>,
    pub metadata: Option<Metadata>,
    pub permission: Option<String>,
}

/// What a [`Component`] stands for: its name, the actions of its intent
/// filters, the name of its meta-data and its permission.
pub struct ComponentView {
    pub name: Seq<char>,
    pub intent_filters: Seq<Seq<char>>,
    pub metadata: Option<Seq<char>>,
    pub permission: Option<Seq<char>>,
}

/// The actions of a list of intent filters.
pub open spec fn actions(filters: Seq<IntentFilter>) -> Seq<Seq<char>> {
    Seq::new(filters.len(), |i: int| filters[i].action@)
}

impl View for Component {
    type V = ComponentView;

    open spec fn view(&self) -> ComponentView {
        ComponentView {
            name: self.name@,
            intent_filters: actions(self.intent_filters@),
            metadata: match self.metadata {
                Some(m) => Some(m.name@),
                None => None,
            },
            permission: match self.permission {
                Some(p) => Some(p@),
                None => None,
            },
        }
    }
}

/// The element that `node` is, if it is one with the tag `tag`.
pub open spec fn element_with_tag(node: XmlNode, tag: Seq<char>) -> Option<XmlElement> {
    match node {
        XmlNode::Element(e) => if e.tag@ == tag {
            Some(e)
        } else {
            None
        },
        XmlNode::Cdata(_) => None,
    }
}

/// The actions of the `intent-filter` elements among the first `k` nodes.
pub open spec fn filters_among(children: Seq<XmlNode>, k: nat) -> Seq<Seq<char>>
    decreases k,
{
    if k == 0 {
        Seq::empty()
    } else {
        let rest = filters_among(children, (k - 1) as nat);
        match element_with_tag(children[k - 1], "intent-filter"@) {
            Some(e) => rest.push(IntentFilter::of(e)),
            None => rest,
        }
    }
}

/// The name of the last `meta-data` element among the first `k` nodes.
pub open spec fn metadata_among(children: Seq<XmlNode>, k: nat) -> Option<Seq<char>>
    decreases k,
{
    if k == 0 {
        None
    } else {
        match element_with_tag(children[k - 1], "meta-data"@) {
            Some(e) => Some(Metadata::of(e)),
            None => metadata_among(children, (k - 1) as nat),
        }
    }
}

impl Component {
    /// The component that an element declares: its name is the attribute
    /// `android:name`, empty where that is missing; its intent filters are
    /// those of its `intent-filter` children, in order; its meta-data is
    /// that of the last of its `meta-data` children; its permission is the
    /// attribute `android:permission`.
    pub open spec fn of(element: XmlElement) -> ComponentView {
        ComponentView {
            name: or_empty(element.attribute_of("android:name"@)),
            intent_filters: filters_among(element.children@, element.children@.len()),
            metadata: metadata_among(element.children@, element.children@.len()),
            permission: element.attribute_of("android:permission"@),
        }
    }

    /// Reads the element of a component.
    pub fn from_element(element: &XmlElement) -> (r: Component)
        ensures
            r@ == Self::of(*element),
    {
        let name = attribute_or_empty(element, "android:name");
        let mut intent_filters: Vec<IntentFilter> = Vec::new();
        let mut metadata: Option<Metadata> = None;
        let mut i: usize = 0;
        assert(actions(intent_filters@) =~= Seq::empty());
        while i < element.children.len()
            invariant
                i <= element.children@.len(),
                actions(intent_filters@) == filters_among(element.children@, i as nat),
                match metadata {
                    Some(m) => metadata_among(element.children@, i as nat) == Some(m.name@),
                    None => metadata_among(element.children@, i as nat) is None,
                },
            decreases element.children.len() - i,
        {
            if let XmlNode::Element(child) = &element.children[i] {
                if child.has_tag("intent-filter") {
                    let ghost before = actions(intent_filters@);
                    let filter = IntentFilter::from_element(child);
                    intent_filters.push(filter);
                    assert(actions(intent_filters@) =~= before.push(IntentFilter::of(*child)));
                }
                if child.has_tag("meta-data") {
                    metadata = Some(Metadata::from_element(child));
                }
            }
            i += 1;
        }
        let permission = match element.attribute("android:permission") {
            Some(p) => Some(p.clone()),
            None => None,
        };
        Component { name, intent_filters, metadata, permission }
    }
}

} // verus!
