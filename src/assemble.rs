use vstd::prelude::*;
use crate::document::{
    Classification, ComponentRecord, ComponentView, SbomDocument, Scope, ToolDescriptor, ToolView,
    SCHEMA_VERSION, components_view, tools_view,
};
use crate::error::SbomError;
use crate::identity::{current_timestamp, generate_serial_number, is_urn_uuid};
use crate::package::{
    DependencyKind, Package, PackageView, find_root, has_root, is_first_root, packages_view,
};
use crate::purl::{locator_of, to_purl};

verus! {

/// Packages used only to build the artifact.
pub open spec fn build_pred() -> spec_fn(PackageView) -> bool {
    |p: PackageView| p.kind == DependencyKind::Build
}

/// Packages shipped in the artifact, the root excepted.
pub open spec fn dependency_pred() -> spec_fn(PackageView) -> bool {
    |p: PackageView| p.kind == DependencyKind::Runtime && !p.root
}

/// The tool that stands for a package.
pub open spec fn tool_of(p: PackageView) -> ToolView {
    ToolView { name: p.name, version: p.version }
}

/// The tools that stand for the build packages of `s`, in order.
pub open spec fn build_tools(s: Seq<PackageView>) -> Seq<ToolView> {
    s.filter(build_pred()).map_values(|p: PackageView| tool_of(p))
}

/// The tool list: the build packages, then the generating program itself.
pub open spec fn tools_of(s: Seq<PackageView>, me: ToolView) -> Seq<ToolView> {
    build_tools(s).push(me)
}

/// The component that stands for a package.
pub open spec fn component_of(p: PackageView, c: Classification) -> ComponentView {
    ComponentView {
        classification: c,
        name: p.name,
        version: p.version,
        scope: Scope::Required,
        purl: locator_of(p),
    }
}

/// The components that stand for the runtime dependencies of `s`, in order.
pub open spec fn components_of(s: Seq<PackageView>) -> Seq<ComponentView> {
    s.filter(dependency_pred()).map_values(|p: PackageView| component_of(p, Classification::Library))
}

/// `d` describes the packages `s`, generated by the program `me`: all but its
/// serial number and timestamp.
pub open spec fn is_document_of(d: SbomDocument, s: Seq<PackageView>, me: ToolView) -> bool {
    &&& d.schema_version == 1
    &&& tools_view(d.tools@) == tools_of(s, me)
    &&& components_view(d.components@) == components_of(s)
    &&& exists|k: int| is_first_root(s, k) && d.component@ == component_of(
        #[trigger] s[k],
        Classification::Application,
    )
}

proof fn lemma_filter_push(s: Seq<PackageView>, a: PackageView, pred: spec_fn(PackageView) -> bool)
    ensures
        s.push(a).filter(pred) == if pred(a) {
            s.filter(pred).push(a)
        } else {
            s.filter(pred)
        },
{
    reveal(Seq::filter);
    assert(s.push(a).drop_last() =~= s);
}

proof fn lemma_prefix_push(s: Seq<PackageView>, i: int)
    requires
        0 <= i < s.len(),
    ensures
        s.subrange(0, i + 1) == s.subrange(0, i).push(s[i]),
{
    assert(s.subrange(0, i + 1) =~= s.subrange(0, i).push(s[i]));
}

/// Maps a build package to the tool that stands for it.
pub fn to_tool(package: &Package) -> (r: ToolDescriptor)
    ensures
        r@ == tool_of(package@),
{
    ToolDescriptor { name: package.name.clone(), version: package.version.clone() }
}

/// The tool list of a document: one tool for each build package, in order,
/// then `me`, the generating program, last.
pub fn to_tools(packages: &Vec<Package>, me: &ToolDescriptor) -> (r: Vec<ToolDescriptor>)
    ensures
        tools_view(r@) == tools_of(packages_view(packages@), me@),
        r@.len() >= 1 && r@.last()@ == me@,
{
    let ghost s = packages_view(packages@);
    let mut tools: Vec<ToolDescriptor> = Vec::new();
    let mut i: usize = 0;
    proof {
        reveal(Seq::filter);
        assert(tools_view(tools@) =~= build_tools(s.subrange(0, 0)));
    }
    while i < packages.len()
        invariant
            s == packages_view(packages@),
            i <= packages@.len(),
            tools_view(tools@) == build_tools(s.subrange(0, i as int)),
        decreases packages@.len() - i,
    {
        proof {
            lemma_prefix_push(s, i as int);
            lemma_filter_push(s.subrange(0, i as int), s[i as int], build_pred());
        }
        if packages[i].kind == DependencyKind::Build {
            let t = to_tool(&packages[i]);
            let ghost before = tools@;
            tools.push(t);
            proof {
                assert(tools_view(tools@) =~= tools_view(before).push(t@));
                assert(build_tools(s.subrange(0, i + 1)) =~= build_tools(s.subrange(0, i as int)).push(
                    tool_of(s[i as int]),
                ));
            }
        }
        i += 1;
    }
    proof {
        assert(s.subrange(0, s.len() as int) =~= s);
    }
    let ghost before = tools@;
    tools.push(ToolDescriptor { name: me.name.clone(), version: me.version.clone() });
    proof {
        assert(tools_view(tools@) =~= tools_view(before).push(me@));
    }
    tools
}

/// Maps a package to a component of the given classification.
pub fn to_component(package: &Package, classification: Classification) -> (r: Result<
    ComponentRecord,
    SbomError,
>)
    ensures
        r matches Ok(c) && c@ == component_of(package@, classification),
{
    let purl = match to_purl(package) {
        Ok(purl) => purl,
        Err(e) => {
            return Err(e);
        },
    };
    Ok(
        ComponentRecord {
            classification,
            name: package.name.clone(),
            version: package.version.clone(),
            scope: Scope::Required,
            purl,
        },
    )
}

/// The component list of a document: one library component for each runtime
/// package that is not the root, in order.
pub fn to_components(packages: &Vec<Package>) -> (r: Result<Vec<ComponentRecord>, SbomError>)
    ensures
        r matches Ok(v) && components_view(v@) == components_of(packages_view(packages@)),
{
    let ghost s = packages_view(packages@);
    let mut components: Vec<ComponentRecord> = Vec::new();
    let mut i: usize = 0;
    proof {
        reveal(Seq::filter);
        assert(components_view(components@) =~= components_of(s.subrange(0, 0)));
    }
    while i < packages.len()
        invariant
            s == packages_view(packages@),
            i <= packages@.len(),
            components_view(components@) == components_of(s.subrange(0, i as int)),
        decreases packages@.len() - i,
    {
        proof {
            lemma_prefix_push(s, i as int);
            lemma_filter_push(s.subrange(0, i as int), s[i as int], dependency_pred());
        }
        let p = &packages[i];
        if !p.root && p.kind == DependencyKind::Runtime {
            let c = match to_component(p, Classification::Library) {
                Ok(c) => c,
                Err(e) => {
                    return Err(e);
                },
            };
            let ghost before = components@;
            components.push(c);
            proof {
                assert(components_view(components@) =~= components_view(before).push(c@));
                assert(components_of(s.subrange(0, i + 1)) =~= components_of(
                    s.subrange(0, i as int),
                ).push(component_of(s[i as int], Classification::Library)));
            }
        }
        i += 1;
    }
    proof {
        assert(s.subrange(0, s.len() as int) =~= s);
    }
    Ok(components)
}

/// Assembles the document for `packages`, generated by `me`, under the given
/// serial number and timestamp.
pub fn assemble(
    packages: &Vec<Package>,
    me: &ToolDescriptor,
    serial_number: String,
    timestamp: String,
) -> (r: Result<SbomDocument, SbomError>)
    ensures
        r is Err <==> !has_root(packages_view(packages@)),
        r matches Err(e) ==> e == SbomError::RootNotFound,
        r matches Ok(d) ==> {
            &&& is_document_of(d, packages_view(packages@), me@)
            &&& d.serial_number@ == serial_number@
            &&& d.timestamp@ == timestamp@
        },
{
    let root = match find_root(packages) {
        Some(root) => root,
        None => {
            return Err(SbomError::RootNotFound);
        },
    };
    let component = match to_component(root, Classification::Application) {
        Ok(c) => c,
        Err(e) => {
            return Err(e);
        },
    };
    let tools = to_tools(packages, me);
    let components = match to_components(packages) {
        Ok(v) => v,
        Err(e) => {
            return Err(e);
        },
    };
    let d = SbomDocument {
        schema_version: SCHEMA_VERSION,
        serial_number,
        timestamp,
        tools,
        component,
        components,
    };
    proof {
        let k = choose|k: int| is_first_root(packages_view(packages@), k) && #[trigger] packages@[k] == *root;
        assert(packages_view(packages@)[k] == root@);
    }
    Ok(d)
}

/// What generating a document for `s` by `me` may give: the document, with a
/// fresh `urn:uuid:` serial number, or `RootNotFound` exactly when no package
/// is flagged as root, or `TimestampUnavailable` when the clock fails.
pub open spec fn is_rendering_of(
    r: Result<SbomDocument, SbomError>,
    s: Seq<PackageView>,
    me: ToolView,
) -> bool {
    &&& !has_root(s) <==> r == Err::<SbomDocument, SbomError>(SbomError::RootNotFound)
    &&& r matches Err(e) ==> (e == SbomError::RootNotFound || e == SbomError::TimestampUnavailable)
    &&& r matches Ok(d) ==> (is_document_of(d, s, me) && is_urn_uuid(d.serial_number@))
}

/// Generates the document for `packages`, produced by `me`, with a fresh
/// serial number and the current time.
pub fn render_sbom(packages: &Vec<Package>, me: &ToolDescriptor) -> (r: Result<
    SbomDocument,
    SbomError,
>)
    ensures
        is_rendering_of(r, packages_view(packages@), me@),
{
    if find_root(packages).is_none() {
        return Err(SbomError::RootNotFound);
    }
    let serial_number = generate_serial_number();
    let timestamp = match current_timestamp() {
        Ok(t) => t,
        Err(_) => {
            return Err(SbomError::TimestampUnavailable);
        },
    };
    assemble(packages, me, serial_number, timestamp)
}

/// Generates the document for what was read from an artifact: `None` when it
/// carries no dependency data, which fails with `NoAuditData`.
pub fn run(info: Option<Vec<Package>>, me: &ToolDescriptor) -> (r: Result<SbomDocument, SbomError>)
    ensures
        info is None ==> r == Err::<SbomDocument, SbomError>(SbomError::NoAuditData),
        info matches Some(packages) ==> is_rendering_of(r, packages_view(packages@), me@),
{
    match info {
        Some(packages) => render_sbom(&packages, me),
        None => Err(SbomError::NoAuditData),
    }
}

proof fn lemma_filter_keeps_members(s: Seq<PackageView>, pred: spec_fn(PackageView) -> bool)
    ensures
        forall|i: int|
            0 <= i < s.filter(pred).len() ==> pred(#[trigger] s.filter(pred)[i]) && s.contains(
                s.filter(pred)[i],
            ),
    decreases s.len(),
{
    reveal(Seq::filter);
    if s.len() > 0 {
        let init = s.drop_last();
        lemma_filter_keeps_members(init, pred);
        assert forall|i: int| 0 <= i < s.filter(pred).len() implies pred(
            #[trigger] s.filter(pred)[i],
        ) && s.contains(s.filter(pred)[i]) by {
            if i < init.filter(pred).len() {
                assert(s.filter(pred)[i] == init.filter(pred)[i]);
                let j = choose|j: int| 0 <= j < init.len() && init[j] == init.filter(pred)[i];
                assert(s[j] == init[j]);
            } else {
                assert(s.filter(pred)[i] == s.last());
                assert(s[s.len() - 1] == s.last());
            }
        }
    }
}

/// The component list never holds the root package nor a package whose kind
/// is not `Runtime`: each component stands for a non-root runtime member of
/// the package set, as a library.
pub proof fn lemma_components_are_runtime_dependencies(s: Seq<PackageView>)
    ensures
        forall|i: int|
            #![trigger components_of(s)[i]]
            0 <= i < components_of(s).len() ==> exists|j: int|
                #![trigger s[j]]
                0 <= j < s.len() && s[j].kind == DependencyKind::Runtime && !s[j].root
                    && components_of(s)[i] == component_of(s[j], Classification::Library),
{
    lemma_filter_keeps_members(s, dependency_pred());
    assert forall|i: int|
        #![trigger components_of(s)[i]]
        0 <= i < components_of(s).len() implies exists|j: int|
        #![trigger s[j]]
        0 <= j < s.len() && s[j].kind == DependencyKind::Runtime && !s[j].root
            && components_of(s)[i] == component_of(s[j], Classification::Library) by {
        let p = s.filter(dependency_pred())[i];
        assert(dependency_pred()(p));
        let j = choose|j: int| 0 <= j < s.len() && s[j] == p;
        assert(components_of(s)[i] == component_of(p, Classification::Library));
    }
}

/// Whatever the package set, the tool list ends with the generating program.
pub proof fn lemma_self_tool_last(s: Seq<PackageView>, me: ToolView)
    ensures
        tools_of(s, me).len() >= 1,
        tools_of(s, me).last() == me,
        tools_of(s, me).len() == s.filter(build_pred()).len() + 1,
{
}

} // verus!
