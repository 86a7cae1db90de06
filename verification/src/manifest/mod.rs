//! The manifest of an application: its package, the permissions it asks
//! for, and its components.

pub mod component;
pub mod intent_filter;
pub mod metadata;
pub mod model;
pub mod xml;

pub use component::Component;
pub use intent_filter::IntentFilter;
pub use metadata::Metadata;
pub use model::{parse, Manifest, ManifestParseModel};
pub use xml::{XmlElement, XmlNode};
