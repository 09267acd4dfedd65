use auditable_sbom::{
    assemble, find_root, input_path, log_verbosity, render_sbom, run, to_component,
    to_components, to_purl, to_tools, Classification, DependencyKind, Origin, Package,
    SbomError, Scope, ToolDescriptor, Verbosity,
};

fn pkg(name: &str, version: &str, origin: Origin, kind: DependencyKind, root: bool) -> Package {
    Package {
        name: name.to_string(),
        version: version.to_string(),
        origin,
        kind,
        root,
    }
}

fn me() -> ToolDescriptor {
    ToolDescriptor {
        name: "sbomgen".to_string(),
        version: "2.0.0".to_string(),
    }
}

fn scenario_packages() -> Vec<Package> {
    vec![
        pkg("app", "1.0.0", Origin::Other, DependencyKind::Root, true),
        pkg("serde", "1.0.160", Origin::CratesIo, DependencyKind::Runtime, false),
        pkg("cc", "1.0.0", Origin::CratesIo, DependencyKind::Build, false),
    ]
}

#[test]
fn end_to_end_scenario() {
    let packages = scenario_packages();
    let doc = assemble(
        &packages,
        &me(),
        "urn:uuid:00000000-0000-4000-8000-000000000000".to_string(),
        "2024-01-01T00:00:00Z".to_string(),
    )
    .unwrap();
    assert_eq!(doc.schema_version, 1);
    assert_eq!(doc.serial_number, "urn:uuid:00000000-0000-4000-8000-000000000000");
    assert_eq!(doc.timestamp, "2024-01-01T00:00:00Z");
    assert_eq!(doc.component.classification, Classification::Application);
    assert_eq!(doc.component.name, "app");
    assert_eq!(doc.component.version, "1.0.0");
    assert_eq!(doc.component.scope, Scope::Required);
    assert_eq!(doc.component.purl, None);
    assert_eq!(doc.tools.len(), 2);
    assert_eq!(doc.tools[0].name, "cc");
    assert_eq!(doc.tools[0].version, "1.0.0");
    assert_eq!(doc.tools[1].name, "sbomgen");
    assert_eq!(doc.tools[1].version, "2.0.0");
    assert_eq!(doc.components.len(), 1);
    let c = &doc.components[0];
    assert_eq!(c.classification, Classification::Library);
    assert_eq!(c.name, "serde");
    assert_eq!(c.version, "1.0.160");
    assert_eq!(c.scope, Scope::Required);
    assert_eq!(c.purl.as_deref(), Some("pkg:cargo/serde@1.0.160"));
}

#[test]
fn no_audit_data_fails_with_guidance() {
    let r = run(None, &me());
    assert_eq!(r.unwrap_err(), SbomError::NoAuditData);
    assert_eq!(
        SbomError::NoAuditData.message(),
        "No dependency information found. Ensure the binary was built using 'cargo auditable build'"
    );
}

#[test]
fn error_messages() {
    assert_eq!(
        SbomError::RootNotFound.message(),
        "Unable to find root package in metadata"
    );
    assert_eq!(SbomError::TimestampUnavailable.message(), "Failed to get current time");
    assert_eq!(SbomError::InvalidLocator.message(), "Unable to build a package URL");
}

#[test]
fn run_with_data_renders_document() {
    let doc = run(Some(scenario_packages()), &me()).unwrap();
    assert_eq!(doc.component.name, "app");
    assert_eq!(doc.tools.len(), 2);
    assert_eq!(doc.components.len(), 1);
}

#[test]
fn no_root_fails_with_root_not_found() {
    let packages = vec![
        pkg("serde", "1.0.160", Origin::CratesIo, DependencyKind::Runtime, false),
        pkg("cc", "1.0.0", Origin::CratesIo, DependencyKind::Build, false),
    ];
    let r = assemble(&packages, &me(), "id".to_string(), "ts".to_string());
    assert_eq!(r.unwrap_err(), SbomError::RootNotFound);
    assert_eq!(render_sbom(&packages, &me()).unwrap_err(), SbomError::RootNotFound);
    assert_eq!(run(Some(packages), &me()).unwrap_err(), SbomError::RootNotFound);
}

#[test]
fn empty_package_set_has_no_root() {
    let packages: Vec<Package> = Vec::new();
    assert!(find_root(&packages).is_none());
    assert_eq!(render_sbom(&packages, &me()).unwrap_err(), SbomError::RootNotFound);
}

#[test]
fn single_root_found_at_any_position() {
    for pos in 0..4 {
        let mut packages = vec![
            pkg("a", "1.0.0", Origin::CratesIo, DependencyKind::Runtime, false),
            pkg("b", "1.0.0", Origin::CratesIo, DependencyKind::Build, false),
            pkg("c", "1.0.0", Origin::Other, DependencyKind::Runtime, false),
            pkg("d", "1.0.0", Origin::CratesIo, DependencyKind::Development, false),
        ];
        packages[pos].root = true;
        let root = find_root(&packages).unwrap();
        assert_eq!(root.name, packages[pos].name);
        assert!(root.root);
    }
}

#[test]
fn first_of_several_roots_wins() {
    let packages = vec![
        pkg("lib", "0.1.0", Origin::CratesIo, DependencyKind::Runtime, false),
        pkg("first", "1.0.0", Origin::Other, DependencyKind::Root, true),
        pkg("second", "2.0.0", Origin::Other, DependencyKind::Root, true),
    ];
    assert_eq!(find_root(&packages).unwrap().name, "first");
}

#[test]
fn self_tool_is_last_without_build_packages() {
    let packages = vec![pkg("app", "1.0.0", Origin::Other, DependencyKind::Root, true)];
    let tools = to_tools(&packages, &me());
    assert_eq!(tools.len(), 1);
    assert_eq!(tools[0].name, "sbomgen");
    assert_eq!(tools[0].version, "2.0.0");
}

#[test]
fn self_tool_is_last_after_build_packages_in_order() {
    let packages = vec![
        pkg("cc", "1.0.0", Origin::CratesIo, DependencyKind::Build, false),
        pkg("app", "1.0.0", Origin::Other, DependencyKind::Root, true),
        pkg("serde", "1.0.160", Origin::CratesIo, DependencyKind::Runtime, false),
        pkg("pkg-config", "0.3.27", Origin::CratesIo, DependencyKind::Build, false),
    ];
    let tools = to_tools(&packages, &me());
    let names: Vec<&str> = tools.iter().map(|t| t.name.as_str()).collect();
    assert_eq!(names, vec!["cc", "pkg-config", "sbomgen"]);
    assert_eq!(tools[1].version, "0.3.27");
}

#[test]
fn components_exclude_root_and_other_kinds() {
    let packages = vec![
        pkg("app", "1.0.0", Origin::Other, DependencyKind::Runtime, true),
        pkg("serde", "1.0.160", Origin::CratesIo, DependencyKind::Runtime, false),
        pkg("cc", "1.0.0", Origin::CratesIo, DependencyKind::Build, false),
        pkg("proptest", "1.2.0", Origin::CratesIo, DependencyKind::Development, false),
        pkg("local", "0.1.0", Origin::Other, DependencyKind::Runtime, false),
        pkg("libc", "0.2.147", Origin::CratesIo, DependencyKind::Runtime, false),
    ];
    let components = to_components(&packages).unwrap();
    let names: Vec<&str> = components.iter().map(|c| c.name.as_str()).collect();
    assert_eq!(names, vec!["serde", "local", "libc"]);
    assert!(components.iter().all(|c| c.classification == Classification::Library));
    assert_eq!(components[1].purl, None);
    assert_eq!(components[2].purl.as_deref(), Some("pkg:cargo/libc@0.2.147"));
}

#[test]
fn registry_package_gets_cargo_purl() {
    let p = pkg("serde_json", "1.0.99+build.1", Origin::CratesIo, DependencyKind::Runtime, false);
    assert_eq!(
        to_purl(&p).unwrap().as_deref(),
        Some("pkg:cargo/serde_json@1.0.99+build.1")
    );
}

#[test]
fn other_origin_has_no_purl() {
    let p = pkg("local", "0.1.0", Origin::Other, DependencyKind::Runtime, false);
    assert_eq!(to_purl(&p).unwrap(), None);
}

#[test]
fn purl_escapes_reserved_characters() {
    let p = pkg("a b", "1.0.0", Origin::CratesIo, DependencyKind::Runtime, false);
    assert_eq!(to_purl(&p).unwrap().as_deref(), Some("pkg:cargo/a%20b@1.0.0"));
}

#[test]
fn component_copies_package_fields() {
    let p = pkg("rand", "0.8.5", Origin::CratesIo, DependencyKind::Runtime, false);
    let c = to_component(&p, Classification::Application).unwrap();
    assert_eq!(c.classification, Classification::Application);
    assert_eq!(c.name, "rand");
    assert_eq!(c.version, "0.8.5");
    assert_eq!(c.scope, Scope::Required);
    assert_eq!(c.purl.as_deref(), Some("pkg:cargo/rand@0.8.5"));
}

fn is_urn_uuid(s: &str) -> bool {
    let Some(rest) = s.strip_prefix("urn:uuid:") else {
        return false;
    };
    rest.len() == 36
        && rest.chars().enumerate().all(|(i, c)| {
            if i == 8 || i == 13 || i == 18 || i == 23 {
                c == '-'
            } else {
                c.is_ascii_digit() || ('a'..='f').contains(&c)
            }
        })
}

#[test]
fn rendered_document_has_fresh_identity() {
    let packages = scenario_packages();
    let first = render_sbom(&packages, &me()).unwrap();
    let second = render_sbom(&packages, &me()).unwrap();
    assert_eq!(first.schema_version, 1);
    assert!(is_urn_uuid(&first.serial_number));
    assert!(is_urn_uuid(&second.serial_number));
    assert_ne!(first.serial_number, second.serial_number);
    assert!(!first.timestamp.is_empty());
    assert!(first.timestamp.starts_with("20"));
    assert_eq!(first.components.len(), 1);
    assert_eq!(first.components[0].purl, second.components[0].purl);
}

#[test]
fn stdin_placeholders() {
    assert_eq!(input_path(""), None);
    assert_eq!(input_path("-"), None);
    assert_eq!(input_path("target/release/app"), Some("target/release/app".to_string()));
    assert_eq!(input_path("--"), Some("--".to_string()));
}

#[test]
fn verbosity_levels() {
    assert_eq!(log_verbosity(true, 3), Verbosity::Off);
    assert_eq!(log_verbosity(false, 0), Verbosity::Warn);
    assert_eq!(log_verbosity(false, 1), Verbosity::Info);
    assert_eq!(log_verbosity(false, 2), Verbosity::Debug);
    assert_eq!(log_verbosity(false, 7), Verbosity::Trace);
}
