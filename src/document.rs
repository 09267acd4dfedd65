use vstd::prelude::*;

verus! {

/// What a component is within the document.
#[derive(Debug, Clone, Copy, PartialEq, Eq, Structural)]
pub enum Classification {
    /// The artifact the document describes.
    Application,
    /// A dependency of that artifact.
    Library,
}

/// Whether a component is needed at run time; every component here is.
#[derive(Debug, Clone, Copy, PartialEq, Eq, Structural)]
pub enum Scope {
    Required,
}

/// A program that took part in producing the artifact.
#[derive(Debug, Clone)]
pub struct ToolDescriptor {
    pub name: String,
    pub version: String,
}

/// The mathematical value of a [`ToolDescriptor`].
pub ghost struct ToolView {
    pub name: Seq<char>,
    pub version: Seq<char>,
}

impl View for ToolDescriptor {
    type V = ToolView;

    open spec fn view(&self) -> ToolView {
        ToolView { name: self.name@, version: self.version@ }
    }
}

/// One entry of the bill of materials.
#[derive(Debug, Clone)]
pub struct ComponentRecord {
    pub classification: Classification,
    pub name: String,
    pub version: String,
    pub scope: Scope,
    /// The package URL, for packages of a known registry.
    pub purl: Option<String>,
}

/// The mathematical value of a [`ComponentRecord`].
pub ghost struct ComponentView {
    pub classification: Classification,
    pub name: Seq<char>,
    pub version: Seq<char>,
    pub scope: Scope,
    pub purl: Option<Seq<char>>,
}

/// The value of an optional string.
pub open spec fn opt_view(o: Option<String>) -> Option<Seq<char>> {
    match o {
        Some(s) => Some(s@),
        None => None,
    }
}

impl View for ComponentRecord {
    type V = ComponentView;

    open spec fn view(&self) -> ComponentView {
        ComponentView {
            classification: self.classification,
            name: self.name@,
            version: self.version@,
            scope: self.scope,
            purl: opt_view(self.purl),
        }
    }
}

/// The values of a list of tools, in order.
pub open spec fn tools_view(v: Seq<ToolDescriptor>) -> Seq<ToolView> {
    v.map_values(|t: ToolDescriptor| t@)
}

/// The values of a list of components, in order.
pub open spec fn components_view(v: Seq<ComponentRecord>) -> Seq<ComponentView> {
    v.map_values(|c: ComponentRecord| c@)
}

/// The schema version that every document carries.
pub const SCHEMA_VERSION: u32 = 1;

/// An assembled bill of materials, ready to be serialised.
#[derive(Debug, Clone)]
pub struct SbomDocument {
    pub schema_version: u32,
    /// A `urn:uuid:` identifier, fresh for each document.
    pub serial_number: String,
    /// When the document was generated, in ISO 8601 form.
    pub timestamp: String,
    pub tools: Vec<ToolDescriptor>,
    /// The artifact itself.
    pub component: ComponentRecord,
    pub components: Vec<ComponentRecord>,
}

} // verus!
