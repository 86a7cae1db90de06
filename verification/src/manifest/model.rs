//! Reading a manifest out of its decoded document.

use vstd::prelude::*;
use super::component::{element_with_tag, Component, ComponentView};
use super::xml::{XmlElement, XmlNode};
use crate::dex::order::same_string;
use crate::text::strip_prefix;

verus! {

/// What the manifest of an application declares.
#[derive(Debug, Default, PartialEq, Eq)]
pub struct Manifest {
    /// The package of the application.
    pub package: Option<String>,
    /// The Android permissions that the application asks for, without the
    /// prefix `android.permission.`, each once, in the order in which the
    /// manifest names them first.
    pub permissions: Vec<String>,
    pub activities: Vec<Component>,
    pub services: Vec<Component>,
    pub receivers: Vec<Component>,
    pub providers: Vec<Component>,
}

/// What a [`Manifest`] stands for.
pub struct ManifestView {
    pub package: Option<Seq<char>>,
    pub permissions: Seq<Seq<char>>,
    pub activities: Seq<ComponentView>,
    pub services: Seq<ComponentView>,
    pub receivers: Seq<ComponentView>,
    pub providers: Seq<ComponentView>,
}

/// The strings of a list as sequences of characters.
pub open spec fn texts(list: Seq<String>) -> Seq<Seq<char>> {
    Seq::new(list.len(), |i: int| list[i]@)
}

/// The components of a list as what they stand for.
pub open spec fn component_views(list: Seq<Component>) -> Seq<ComponentView> {
    Seq::new(list.len(), |i: int| list[i]@)
}

/// What an optional string stands for.
pub open spec fn optional_text(s: Option<String>) -> Option<Seq<char>> {
    match s {
        Some(s) => Some(s@),
        None => None,
    }
}

impl View for Manifest {
    type V = ManifestView;

    open spec fn view(&self) -> ManifestView {
        ManifestView {
            package: optional_text(self.package),
            permissions: texts(self.permissions@),
            activities: component_views(self.activities@),
            services: component_views(self.services@),
            receivers: component_views(self.receivers@),
            providers: component_views(self.providers@),
        }
    }
}

/// `name` without `prefix` in front, where it starts with `prefix`.
pub open spec fn stripped(name: Seq<char>, prefix: Seq<char>) -> Option<Seq<char>> {
    if prefix.is_prefix_of(name) {
        Some(name.skip(prefix.len() as int))
    } else {
        None
    }
}

/// The permission that `node` asks for: a `uses-permission` element whose
/// attribute `android:name` starts with `android.permission.` asks for
/// what follows this prefix.
pub open spec fn permission_of(node: XmlNode) -> Option<Seq<char>> {
    match element_with_tag(node, "uses-permission"@) {
        Some(e) => match e.attribute_of("android:name"@) {
            Some(name) => stripped(name, "android.permission."@),
            None => None,
        },
        None => None,
    }
}

/// Every permission that the first `k` nodes ask for, in order.
pub open spec fn permissions_listed(children: Seq<XmlNode>, k: nat) -> Seq<Seq<char>>
    decreases k,
{
    if k == 0 {
        Seq::empty()
    } else {
        let rest = permissions_listed(children, (k - 1) as nat);
        match permission_of(children[k - 1]) {
            Some(p) => rest.push(p),
            None => rest,
        }
    }
}

/// The permissions that the first `k` nodes ask for, each once, in the
/// order in which they come first.
pub open spec fn permissions_among(children: Seq<XmlNode>, k: nat) -> Seq<Seq<char>>
    decreases k,
{
    if k == 0 {
        Seq::empty()
    } else {
        let rest = permissions_among(children, (k - 1) as nat);
        match permission_of(children[k - 1]) {
            Some(p) => if rest.contains(p) {
                rest
            } else {
                rest.push(p)
            },
            None => rest,
        }
    }
}

/// A component as the manifest holds it: where its name starts with the
/// package, the package is taken off the name, and what follows stays, a
/// leading dot too.
pub open spec fn renamed(component: ComponentView, package: Option<Seq<char>>) -> ComponentView {
    match package {
        Some(p) => match stripped(component.name, p) {
            Some(rest) => ComponentView { name: rest, ..component },
            None => component,
        },
        None => component,
    }
}

/// The components that the elements with the tag `tag` among the first
/// `k` nodes declare.
pub open spec fn declared_among(
    children: Seq<XmlNode>,
    tag: Seq<char>,
    package: Option<Seq<char>>,
    k: nat,
) -> Seq<ComponentView>
    decreases k,
{
    if k == 0 {
        Seq::empty()
    } else {
        let rest = declared_among(children, tag, package, (k - 1) as nat);
        match element_with_tag(children[k - 1], tag) {
            Some(e) => rest.push(renamed(Component::of(e), package)),
            None => rest,
        }
    }
}

/// The components with the tag `tag` that the `application` elements among
/// the first `k` nodes declare.
pub open spec fn components_among(
    children: Seq<XmlNode>,
    tag: Seq<char>,
    package: Option<Seq<char>>,
    k: nat,
) -> Seq<ComponentView>
    decreases k,
{
    if k == 0 {
        Seq::empty()
    } else {
        let rest = components_among(children, tag, package, (k - 1) as nat);
        match element_with_tag(children[k - 1], "application"@) {
            Some(e) => rest + declared_among(e.children@, tag, package, e.children@.len()),
            None => rest,
        }
    }
}

/// The manifest that the root element of a document declares.
pub open spec fn manifest_of(root: XmlElement) -> ManifestView {
    let package = root.attribute_of("package"@);
    let n = root.children@.len();
    ManifestView {
        package,
        permissions: permissions_among(root.children@, n),
        activities: components_among(root.children@, "activity"@, package, n),
        services: components_among(root.children@, "service"@, package, n),
        receivers: components_among(root.children@, "receiver"@, package, n),
        providers: components_among(root.children@, "provider"@, package, n),
    }
}

/// The manifest of a document, if its root is an element.
pub open spec fn parsed(root: Option<XmlNode>) -> Option<ManifestView> {
    match root {
        Some(XmlNode::Element(e)) => Some(manifest_of(e)),
        _ => None,
    }
}

/// Whether `list` holds the string `s`.
pub fn holds(list: &Vec<String>, s: &str) -> (r: bool)
    ensures
        r == texts(list@).contains(s@),
{
    let mut i: usize = 0;
    while i < list.len()
        invariant
            i <= list@.len(),
            forall|k: int| 0 <= k < i ==> texts(list@)[k] != s@,
        decreases list.len() - i,
    {
        if same_string(list[i].as_str(), s) {
            assert(texts(list@)[i as int] == s@);
            return true;
        }
        i += 1;
    }
    false
}

/// The permission that a child of the root asks for.
pub fn read_permission(node: &XmlNode) -> (r: Option<String>)
    ensures
        optional_text(r) == permission_of(*node),
{
    if let XmlNode::Element(element) = node {
        if element.has_tag("uses-permission") {
            if let Some(name) = element.attribute("android:name") {
                if let Some(rest) = strip_prefix(name.as_str(), "android.permission.") {
                    return Some(rest.to_owned());
                }
            }
        }
    }
    None
}

/// The component that `element` declares, as the manifest of `package`
/// holds it.
pub fn read_component(element: &XmlElement, package: &Option<String>) -> (r: Component)
    ensures
        r@ == renamed(Component::of(*element), optional_text(*package)),
{
    let mut component = Component::from_element(element);
    if let Some(p) = package {
        let shorter = match strip_prefix(component.name.as_str(), p.as_str()) {
            Some(rest) => {
                assert(rest@ =~= component.name@.skip(p@.len() as int));
                Some(rest.to_owned())
            },
            None => None,
        };
        if let Some(name) = shorter {
            component.name = name;
        }
    }
    component
}

/// Appends the components with the tag `tag` that `application` declares.
fn read_declared(
    list: &mut Vec<Component>,
    application: &XmlElement,
    tag: &str,
    package: &Option<String>,
)
    ensures
        component_views(final(list)@) == component_views(old(list)@) + declared_among(
            application.children@,
            tag@,
            optional_text(*package),
            application.children@.len(),
        ),
{
    let ghost base = component_views(list@);
    let ghost children = application.children@;
    let mut i: usize = 0;
    while i < application.children.len()
        invariant
            i <= children.len(),
            children == application.children@,
            component_views(list@) == base + declared_among(
                children,
                tag@,
                optional_text(*package),
                i as nat,
            ),
        decreases application.children.len() - i,
    {
        if let XmlNode::Element(element) = &application.children[i] {
            if element.has_tag(tag) {
                let ghost before = component_views(list@);
                let component = read_component(element, package);
                list.push(component);
                assert(component_views(list@) =~= before.push(
                    renamed(Component::of(*element), optional_text(*package)),
                ));
            }
        }
        assert(component_views(list@) =~= base + declared_among(
            children,
            tag@,
            optional_text(*package),
            (i + 1) as nat,
        ));
        i += 1;
    }
}

impl Manifest {
    /// Reads the manifest that the root element of a document declares:
    /// the package from the attribute `package`, the permissions from the
    /// `uses-permission` children, and the components from the children
    /// of the `application` children.
    pub fn from_root(root: &XmlElement) -> (m: Manifest)
        ensures
            m@ == manifest_of(*root),
    {
        let package = match root.attribute("package") {
            Some(p) => Some(p.clone()),
            None => None,
        };
        let mut permissions: Vec<String> = Vec::new();
        let mut activities: Vec<Component> = Vec::new();
        let mut services: Vec<Component> = Vec::new();
        let mut receivers: Vec<Component> = Vec::new();
        let mut providers: Vec<Component> = Vec::new();
        let ghost children = root.children@;
        let ghost pkg = optional_text(package);
        let mut i: usize = 0;
        while i < root.children.len()
            invariant
                i <= children.len(),
                children == root.children@,
                pkg == optional_text(package),
                texts(permissions@) == permissions_among(children, i as nat),
                component_views(activities@) == components_among(children, "activity"@, pkg, i as nat),
                component_views(services@) == components_among(children, "service"@, pkg, i as nat),
                component_views(receivers@) == components_among(children, "receiver"@, pkg, i as nat),
                component_views(providers@) == components_among(children, "provider"@, pkg, i as nat),
            decreases root.children.len() - i,
        {
            if let Some(permission) = read_permission(&root.children[i]) {
                if !holds(&permissions, permission.as_str()) {
                    let ghost before = texts(permissions@);
                    let ghost p = permission@;
                    permissions.push(permission);
                }
            }
            if let XmlNode::Element(element) = &root.children[i] {
                if element.has_tag("application") {
                    read_declared(&mut activities, element, "activity", &package);
                    read_declared(&mut services, element, "service", &package);
                    read_declared(&mut receivers, element, "receiver", &package);
                    read_declared(&mut providers, element, "provider", &package);
                }
            }
            i += 1;
        }
        Manifest { package, permissions, activities, services, receivers, providers }
    }
}

/// Reads the manifest of a decoded document. A document without a root,
/// or with a root that is no element, has none.
pub fn parse(root: Option<&XmlNode>) -> (r: Option<Manifest>)
    ensures
        match r {
            Some(m) => root is Some && parsed(Some(*root->Some_0)) == Some(m@),
            None => root is None || parsed(Some(*root->Some_0)) is None,
        },
{
    match root {
        Some(XmlNode::Element(element)) => Some(Manifest::from_root(element)),
        _ => None,
    }
}

/// The permissions of an application alone.
#[derive(Debug, Default, PartialEq, Eq)]
pub struct ManifestParseModel {
    /// The Android permissions that the application asks for, without the
    /// prefix `android.permission.`, in the order of the manifest.
    pub permissions: Vec<String>,
}

impl ManifestParseModel {
    /// Reads the permissions that the `uses-permission` children of the
    /// root ask for. A document without a root element asks for none.
    pub fn from_document(root: Option<&XmlNode>) -> (m: ManifestParseModel)
        ensures
            texts(m.permissions@) == match root {
                Some(XmlNode::Element(e)) => permissions_listed(e.children@, e.children@.len()),
                _ => Seq::empty(),
            },
    {
        let mut permissions: Vec<String> = Vec::new();
        if let Some(XmlNode::Element(element)) = root {
            let mut i: usize = 0;
            while i < element.children.len()
                invariant
                    i <= element.children@.len(),
                    texts(permissions@) == permissions_listed(element.children@, i as nat),
                decreases element.children.len() - i,
            {
                if let Some(permission) = read_permission(&element.children[i]) {
                    let ghost before = texts(permissions@);
                    let ghost p = permission@;
                    permissions.push(permission);
                }
                i += 1;
            }
        }
        ManifestParseModel { permissions }
    }
}

} // verus!
