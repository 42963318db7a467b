use facet_cargo_toml::{
    BoolOrVec, CargoToml, DebugLevel, Decode, Dependency, Edition, EditionOrWorkspace, Error,
    LintLevel, LintLevelString, Lto, OptLevel, PanicStrategy, Resolver, StringOrBool,
    StringOrWorkspace, StripLevel, ValueNode, VecOrWorkspace,
};

#[test]
fn package_with_direct_values() {
    let manifest = CargoToml::parse(
        r#"
[package]
name = "demo"
version = "1.0.0"
edition = "2021"
"#,
    )
    .unwrap();
    let package = manifest.package.unwrap();
    assert_eq!(package.name.as_deref(), Some("demo"));
    match package.version {
        Some(StringOrWorkspace::String(v)) => assert_eq!(v, "1.0.0"),
        other => panic!("unexpected: {:?}", other),
    }
    match package.edition {
        Some(EditionOrWorkspace::Edition(e)) => assert_eq!(e, Edition::E2021),
        other => panic!("unexpected: {:?}", other),
    }
    assert!(package.description.is_none());
    assert!(manifest.workspace.is_none());
    assert!(manifest.dependencies.is_none());
}

#[test]
fn dependency_that_inherits_from_the_workspace() {
    let manifest = CargoToml::parse(
        r#"
[dependencies]
aho-corasick = { workspace = true }
"#,
    )
    .unwrap();
    let dependencies = manifest.dependencies.unwrap();
    assert_eq!(dependencies.len(), 1);
    match dependencies.get("aho-corasick") {
        Some(Dependency::Workspace(w)) => {
            assert!(w.workspace);
            assert!(w.features.is_none());
            assert!(w.optional.is_none());
            assert!(w.default_features.is_none());
        }
        other => panic!("unexpected: {:?}", other),
    }
}

#[test]
fn profile_debug_number() {
    let manifest = CargoToml::parse(
        r#"
[profile.dev]
debug = 2
"#,
    )
    .unwrap();
    let profiles = manifest.profile.unwrap();
    match profiles.get("dev").unwrap().debug {
        Some(DebugLevel::Number(n)) => assert_eq!(n, 2),
        ref other => panic!("unexpected: {:?}", other),
    }
}

#[test]
fn empty_table_is_present_and_empty() {
    let with = CargoToml::parse("[dependencies]\n").unwrap();
    match with.dependencies {
        Some(ref d) => assert!(d.is_empty()),
        None => panic!("an empty table was read as absent"),
    }
    let without = CargoToml::parse("[package]\nname = \"x\"\n").unwrap();
    assert!(without.dependencies.is_none());
    let list = CargoToml::parse("[package]\nkeywords = []\n").unwrap();
    match list.package.unwrap().keywords {
        Some(VecOrWorkspace::Values(v)) => assert!(v.is_empty()),
        other => panic!("unexpected: {:?}", other),
    }
}

#[test]
fn dependency_forms() {
    let manifest = CargoToml::parse(
        r#"
[dependencies]
plain = "1.0"
detailed = { version = "2", features = ["a", "b"], default-features = false, optional = true }
inherited = { workspace = true, features = ["x"] }
misspelt = { workspace = true, feature = ["x"] }
empty = {}

[dev-dependencies]
local = { path = "../local" }

[build-dependencies]
cc = { git = "https://example.com/cc", branch = "main" }
"#,
    )
    .unwrap();
    let deps = manifest.dependencies.unwrap();
    assert_eq!(deps.len(), 5);
    match deps.get("plain") {
        Some(Dependency::Version(v)) => assert_eq!(v, "1.0"),
        other => panic!("unexpected: {:?}", other),
    }
    match deps.get("detailed") {
        Some(Dependency::Detailed(d)) => {
            assert_eq!(d.version.as_deref(), Some("2"));
            assert_eq!(d.features, Some(vec!["a".to_string(), "b".to_string()]));
            assert_eq!(d.default_features, Some(false));
            assert_eq!(d.optional, Some(true));
            assert!(d.path.is_none());
        }
        other => panic!("unexpected: {:?}", other),
    }
    match deps.get("inherited") {
        Some(Dependency::Workspace(w)) => {
            assert!(w.workspace);
            assert_eq!(w.features, Some(vec!["x".to_string()]));
        }
        other => panic!("unexpected: {:?}", other),
    }
    // The closed marker shape refuses the unknown key, the permissive one takes the table.
    assert!(matches!(deps.get("misspelt"), Some(Dependency::Detailed(_))));
    assert!(matches!(deps.get("empty"), Some(Dependency::Detailed(_))));
    assert!(deps.get("absent").is_none());
    match manifest.dev_dependencies.unwrap().get("local") {
        Some(Dependency::Detailed(d)) => assert_eq!(d.path.as_deref(), Some("../local")),
        other => panic!("unexpected: {:?}", other),
    }
    match manifest.build_dependencies.unwrap().get("cc") {
        Some(Dependency::Detailed(d)) => {
            assert_eq!(d.git.as_deref(), Some("https://example.com/cc"));
            assert_eq!(d.branch.as_deref(), Some("main"));
        }
        other => panic!("unexpected: {:?}", other),
    }
}

#[test]
fn mapping_keeps_the_order_of_the_document() {
    let manifest = CargoToml::parse("[features]\nzeta = []\nalpha = [\"zeta\"]\nmid = [\"alpha\", \"zeta\"]\n").unwrap();
    let features = manifest.features.unwrap();
    let keys: Vec<&str> = features.entries.iter().map(|(k, _)| k.as_str()).collect();
    assert_eq!(keys, vec!["zeta", "alpha", "mid"]);
    assert_eq!(features.get("mid"), Some(&vec!["alpha".to_string(), "zeta".to_string()]));
}

#[test]
fn package_inherited_and_polymorphic_fields() {
    let manifest = CargoToml::parse(
        r#"
[package]
name = "member"
version = { workspace = true }
edition = { workspace = true }
authors = { workspace = true }
keywords = ["a", "b"]
build = false
publish = ["internal"]
rust-version = "1.70"
license-file = "LICENSE"
default-run = "member"
include = ["src/**"]
resolver = "2"

[package.metadata.docs]
all-features = true
"#,
    )
    .unwrap();
    let package = manifest.package.unwrap();
    assert!(matches!(package.version, Some(StringOrWorkspace::Workspace(ref w)) if w.workspace));
    assert!(matches!(package.edition, Some(EditionOrWorkspace::Workspace(ref w)) if w.workspace));
    assert!(matches!(package.authors, Some(VecOrWorkspace::Workspace(ref w)) if w.workspace));
    match package.keywords {
        Some(VecOrWorkspace::Values(v)) => assert_eq!(v, vec!["a".to_string(), "b".to_string()]),
        other => panic!("unexpected: {:?}", other),
    }
    assert!(matches!(package.build, Some(StringOrBool::Bool(false))));
    match package.publish {
        Some(BoolOrVec::Vec(v)) => assert_eq!(v, vec!["internal".to_string()]),
        other => panic!("unexpected: {:?}", other),
    }
    assert!(matches!(package.rust_version, Some(StringOrWorkspace::String(ref s)) if s == "1.70"));
    assert!(matches!(package.license_file, Some(StringOrWorkspace::String(ref s)) if s == "LICENSE"));
    assert_eq!(package.default_run.as_deref(), Some("member"));
    assert_eq!(package.included, Some(vec!["src/**".to_string()]));
    assert_eq!(package.resolver, Some(Resolver::V2));
    match package.metadata {
        Some(ValueNode::Table(entries)) => {
            assert_eq!(entries.len(), 1);
            assert_eq!(entries[0].0, "docs");
            match &entries[0].1 {
                ValueNode::Table(inner) => {
                    assert_eq!(inner[0].0, "all-features");
                    assert!(matches!(inner[0].1, ValueNode::Boolean(true)));
                }
                other => panic!("unexpected: {:?}", other),
            }
        }
        other => panic!("unexpected: {:?}", other),
    }
}

#[test]
fn workspace_section() {
    let manifest = CargoToml::parse(
        r#"
[workspace]
members = ["a", "b"]
default-members = ["a"]
resolver = "3"

[workspace.package]
version = "0.3.0"
edition = "2024"
publish = false

[workspace.dependencies]
serde = "1"

[workspace.lints.rust]
unsafe_code = "forbid"
"#,
    )
    .unwrap();
    let workspace = manifest.workspace.unwrap();
    assert_eq!(workspace.members, Some(vec!["a".to_string(), "b".to_string()]));
    assert_eq!(workspace.default_members, Some(vec!["a".to_string()]));
    assert_eq!(workspace.resolver, Some(Resolver::V3));
    let package = workspace.package.unwrap();
    assert_eq!(package.version.as_deref(), Some("0.3.0"));
    assert_eq!(package.edition, Some(Edition::E2024));
    assert!(matches!(package.publish, Some(BoolOrVec::Bool(false))));
    assert!(matches!(workspace.dependencies.unwrap().get("serde"), Some(Dependency::Version(v)) if v == "1"));
    assert!(matches!(workspace.lints.unwrap().rust.unwrap().get("unsafe_code"), Some(LintLevel::Forbid)));
}

#[test]
fn targets_and_target_specific_dependencies() {
    let manifest = CargoToml::parse(
        r#"
[lib]
name = "demo"
proc-macro = true
crate-type = ["cdylib"]

[[bin]]
name = "one"
path = "src/bin/one.rs"

[[bin]]
name = "two"
required-features = ["cli"]

[[test]]
name = "it"
harness = false

[[bench]]
name = "speed"

[[example]]
name = "show"
crate-type = ["staticlib"]
edition = "2018"

[target.'cfg(unix)'.dependencies]
libc = "0.2"
"#,
    )
    .unwrap();
    let lib = manifest.lib.unwrap();
    assert_eq!(lib.name.as_deref(), Some("demo"));
    assert_eq!(lib.proc_macro, Some(true));
    assert_eq!(lib.crate_type, Some(vec!["cdylib".to_string()]));
    let bins = manifest.bin.unwrap();
    assert_eq!(bins.len(), 2);
    assert_eq!(bins[0].path.as_deref(), Some("src/bin/one.rs"));
    assert_eq!(bins[1].required_features, Some(vec!["cli".to_string()]));
    assert_eq!(manifest.test.unwrap()[0].harness, Some(false));
    assert_eq!(manifest.bench.unwrap()[0].name.as_deref(), Some("speed"));
    let examples = manifest.example.unwrap();
    assert_eq!(examples[0].crate_type, Some(vec!["staticlib".to_string()]));
    assert_eq!(examples[0].edition, Some(Edition::E2018));
    let target = manifest.target.unwrap();
    let unix = target.get("cfg(unix)").unwrap();
    assert!(matches!(unix.dependencies.as_ref().unwrap().get("libc"), Some(Dependency::Version(v)) if v == "0.2"));
    assert!(unix.dev_dependencies.is_none());
}

#[test]
fn profiles() {
    let manifest = CargoToml::parse(
        r#"
[profile.release]
opt-level = "z"
debug = "line-tables-only"
lto = "thin"
panic = "abort"
strip = true
codegen-units = 1
inherits = "dev"

[profile.release.package.heavy]
opt-level = 3
debug = false

[profile.release.build-override]
opt-level = 0
incremental = true
"#,
    )
    .unwrap();
    let profiles = manifest.profile.unwrap();
    let release = profiles.get("release").unwrap();
    assert!(matches!(release.opt_level, Some(OptLevel::String(ref s)) if s == "z"));
    assert!(matches!(release.debug, Some(DebugLevel::String(ref s)) if s == "line-tables-only"));
    assert!(matches!(release.lto, Some(Lto::String(ref s)) if s == "thin"));
    assert!(matches!(release.panic, Some(PanicStrategy::Abort)));
    assert!(matches!(release.strip, Some(StripLevel::Bool(true))));
    assert_eq!(release.codegen_units, Some(1));
    assert_eq!(release.inherits.as_deref(), Some("dev"));
    let heavy = release.package.as_ref().unwrap().get("heavy").unwrap();
    assert!(matches!(heavy.opt_level, Some(OptLevel::Number(3))));
    assert!(matches!(heavy.debug, Some(DebugLevel::Bool(false))));
    let over = release.build_override.as_ref().unwrap();
    assert!(matches!(over.opt_level, Some(OptLevel::Number(0))));
    assert_eq!(over.incremental, Some(true));
}

#[test]
fn lints_patches_and_badges() {
    let manifest = CargoToml::parse(
        r#"
[lints]
workspace = true

[lints.clippy]
all = { level = "warn", priority = -1 }
unwrap_used = "deny"

[patch.crates-io]
foo = { path = "../foo" }

[badges]
maintenance = { status = "actively-developed" }
"#,
    )
    .unwrap();
    let lints = manifest.lints.unwrap();
    assert_eq!(lints.workspace, Some(true));
    let clippy = lints.clippy.unwrap();
    match clippy.get("all") {
        Some(LintLevel::Config(c)) => {
            assert_eq!(c.level, LintLevelString::Warn);
            assert_eq!(c.priority, Some(-1));
            assert!(c.check_cfg.is_none());
        }
        other => panic!("unexpected: {:?}", other),
    }
    assert!(matches!(clippy.get("unwrap_used"), Some(LintLevel::Deny)));
    let patch = manifest.patch.unwrap();
    assert!(matches!(patch.get("crates-io").unwrap().get("foo"), Some(Dependency::Detailed(_))));
    let badges = manifest.badges.unwrap();
    match &badges.get("maintenance").unwrap().attributes {
        ValueNode::Table(entries) => {
            assert_eq!(entries[0].0, "status");
            assert!(matches!(&entries[0].1, ValueNode::String(s) if s == "actively-developed"));
        }
        other => panic!("unexpected: {:?}", other),
    }
}

#[test]
fn unknown_keys_are_ignored_by_open_shapes() {
    let manifest = CargoToml::parse("[package]\nname = \"x\"\nnot-a-field = 1\n[unknown-section]\na = 1\n").unwrap();
    assert_eq!(manifest.package.unwrap().name.as_deref(), Some("x"));
}

#[test]
fn manifest_of_the_wrong_shape_is_a_decode_error() {
    match CargoToml::parse("[package]\nname = 5\n") {
        Err(Error::Parse { message }) => {
            assert_eq!(message, "package: name: expected string, found integer");
        }
        other => panic!("unexpected: {:?}", other),
    }
    match CargoToml::parse("[package\nname = 5\n") {
        Err(Error::Parse { message }) => assert!(!message.is_empty()),
        other => panic!("unexpected: {:?}", other),
    }
}

#[test]
fn manifest_root_must_be_a_table() {
    assert!(CargoToml::decode(&ValueNode::Array(vec![])).is_err());
    assert!(CargoToml::decode(&ValueNode::Table(vec![])).is_ok());
}

#[test]
fn decoding_twice_gives_the_same_manifest() {
    let text = "[package]\nname = \"demo\"\nversion = \"1.0.0\"\n[dependencies]\na = \"1\"\nb = { workspace = true }\n";
    let a = CargoToml::parse(text).unwrap();
    let b = CargoToml::parse(text).unwrap();
    assert_eq!(format!("{:?}", a), format!("{:?}", b));
}

#[test]
fn table_header_without_entries_is_an_empty_mapping() {
    let manifest = CargoToml::parse(
        r#"
[profile.release.package]
# zed = { codegen-units = 16 }

[profile.release-fast]
debug = 1
"#,
    )
    .unwrap();
    let profiles = manifest.profile.unwrap();
    assert_eq!(profiles.len(), 2);
    let release = profiles.get("release").unwrap();
    assert!(matches!(release.package, Some(ref p) if p.is_empty()));
    assert!(release.debug.is_none());
    let fast = profiles.get("release-fast").unwrap();
    assert!(matches!(fast.debug, Some(DebugLevel::Number(1))));
    assert!(fast.package.is_none());
}

#[test]
fn debug_level_zero_is_a_number() {
    let manifest = CargoToml::parse("[profile.dev]\ndebug = 0\n").unwrap();
    assert!(matches!(manifest.profile.unwrap().get("dev").unwrap().debug, Some(DebugLevel::Number(0))));
}

#[test]
fn dotted_keys_below_free_form_metadata() {
    let manifest = CargoToml::parse(
        r#"
[workspace]
members = []

[workspace.metadata.typos]
default.extend-ignore-re = ["clonable"]
"#,
    )
    .unwrap();
    let workspace = manifest.workspace.unwrap();
    assert_eq!(workspace.members, Some(vec![]));
    let metadata = workspace.metadata.unwrap();
    let typos = match &metadata {
        ValueNode::Table(entries) if entries.len() == 1 && entries[0].0 == "typos" => &entries[0].1,
        other => panic!("unexpected: {:?}", other),
    };
    let default = match typos {
        ValueNode::Table(entries) if entries.len() == 1 && entries[0].0 == "default" => &entries[0].1,
        other => panic!("unexpected: {:?}", other),
    };
    match default {
        ValueNode::Table(entries) => {
            assert_eq!(entries[0].0, "extend-ignore-re");
            assert!(matches!(&entries[0].1, ValueNode::Array(items) if items.len() == 1 && matches!(&items[0], ValueNode::String(s) if s == "clonable")));
        }
        other => panic!("unexpected: {:?}", other),
    }
}

#[test]
fn lint_priority_may_be_negative() {
    let manifest = CargoToml::parse("[lints.rust]\nunused = { level = \"allow\", priority = -1 }\n").unwrap();
    match manifest.lints.unwrap().rust.unwrap().get("unused") {
        Some(LintLevel::Config(c)) => {
            assert_eq!(c.level, LintLevelString::Allow);
            assert_eq!(c.priority, Some(-1));
        }
        other => panic!("unexpected: {:?}", other),
    }
}

#[test]
fn opt_level_below_zero_is_a_parse_error() {
    match CargoToml::parse("[profile.dev]\nopt-level = -1\n") {
        Err(Error::Parse { message }) => assert_eq!(
            message,
            "profile: dev: opt-level: no variant matched; Number: integer -1 out of range for u8; String: expected string, found integer"
        ),
        other => panic!("unexpected: {:?}", other),
    }
    assert!(matches!(CargoToml::parse("[profile.dev]\nopt-level = 256\n"), Err(Error::Parse { .. })));
    match CargoToml::parse("[profile.dev]\nopt-level = 255\n") {
        Ok(manifest) => assert!(matches!(manifest.profile.unwrap().get("dev").unwrap().opt_level, Some(OptLevel::Number(255)))),
        other => panic!("unexpected: {:?}", other),
    }
}

#[test]
fn one_profile_out_of_range_refuses_the_manifest() {
    let level = |n: i64| ValueNode::Table(vec![("opt-level".to_string(), ValueNode::Integer(n))]);
    let manifest = |last: i64| {
        ValueNode::Table(vec![(
            "profile".to_string(),
            ValueNode::Table(vec![("dev".to_string(), level(0)), ("release".to_string(), level(3)), ("odd".to_string(), level(last))]),
        )])
    };
    assert!(CargoToml::decode(&manifest(2)).is_ok());
    assert!(CargoToml::decode(&manifest(-1)).is_err());
    assert!(CargoToml::decode(&manifest(300)).is_err());
}
