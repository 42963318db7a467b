use facet_cargo_toml::{CargoLock, Decode, DecodeError, Error, Kind, LockPackage, ValueNode, CRATES_IO_SOURCE};

#[test]
fn parse_v4_lockfile() {
    let contents = r#"
version = 4

[[package]]
name = "myapp"
version = "0.1.0"
dependencies = [
    "aho-corasick",
]

[[package]]
name = "aho-corasick"
version = "1.1.2"
source = "registry+https://github.com/rust-lang/crates.io-index"
checksum = "b2969dcb958b36655471fc61f7e416fa76033bdd4bfed0678d8fee1e2d07a1f0"
"#;
    let lockfile = CargoLock::parse(contents).unwrap();
    assert_eq!(lockfile.version, 4);
    assert_eq!(
        lockfile.packages.len(),
        2,
        "Expected 2 packages but got {}: {:?}",
        lockfile.packages.len(),
        lockfile
            .packages
            .iter()
            .map(|p| &p.name)
            .collect::<Vec<_>>()
    );

    let ac = lockfile.find_by_name("aho-corasick").unwrap();
    assert!(ac.is_registry());
    assert!(ac.checksum.is_some());
}

#[test]
fn parse_v3_lockfile() {
    let contents = r#"
version = 3

[[package]]
name = "myapp"
version = "0.1.0"
dependencies = [
    "aho-corasick 1.1.2",
]

[[package]]
name = "aho-corasick"
version = "1.1.2"
source = "registry+https://github.com/rust-lang/crates.io-index"
checksum = "b2969dcb958b36655471fc61f7e416fa76033bdd4bfed0678d8fee1e2d07a1f0"
"#;
    let lockfile = CargoLock::parse(contents).unwrap();
    assert_eq!(lockfile.version, 3);
}

#[test]
fn lockfile_without_version_is_version_three() {
    let contents = "[[package]]\nname = \"solo\"\nversion = \"0.0.1\"\n";
    let lockfile = CargoLock::parse(contents).unwrap();
    assert_eq!(lockfile.version, 3);
    assert_eq!(lockfile.packages.len(), 1);
    assert_eq!(lockfile.packages[0].name, "solo");
    assert_eq!(lockfile.packages[0].version, "0.0.1");
    assert!(lockfile.packages[0].dependencies.is_empty());
}

#[test]
fn empty_lockfile_has_no_packages() {
    let lockfile = CargoLock::parse("").unwrap();
    assert_eq!(lockfile.version, 3);
    assert!(lockfile.packages.is_empty());
}

#[test]
fn package_count_is_the_number_of_entries() {
    let mut contents = String::from("version = 4\n");
    for i in 0..5 {
        contents.push_str(&format!("[[package]]\nname = \"pkg{}\"\nversion = \"1.0.{}\"\n", i, i));
    }
    let lockfile = CargoLock::parse(&contents).unwrap();
    assert_eq!(lockfile.packages.len(), 5);
    assert_eq!(lockfile.packages[4].name, "pkg4");
}

fn text(s: &str) -> ValueNode {
    ValueNode::String(s.to_string())
}

fn record(name: &str, version: &str, source: Option<&str>) -> ValueNode {
    let mut entries = vec![("name".to_string(), text(name)), ("version".to_string(), text(version))];
    if let Some(s) = source {
        entries.push(("source".to_string(), text(s)));
    }
    ValueNode::Table(entries)
}

#[test]
fn find_by_name_takes_the_first_of_that_name() {
    let tree = ValueNode::Table(vec![(
        "package".to_string(),
        ValueNode::Array(vec![
            record("a", "1.0.0", None),
            record("b", "1.0.0", Some(CRATES_IO_SOURCE)),
            record("b", "2.0.0", Some("git+https://example.com/b")),
        ]),
    )]);
    let lock = CargoLock::decode(&tree).unwrap();
    assert_eq!(lock.find_by_name("b").unwrap().version, "1.0.0");
    assert_eq!(lock.find_by_name_version("b", "2.0.0").unwrap().source.as_deref(), Some("git+https://example.com/b"));
    assert!(lock.find_by_name("c").is_none());
    assert!(lock.find_by_name_version("a", "2.0.0").is_none());
    assert!(lock.find_by_name_version("b", "1.0.0").unwrap().is_registry());
}

#[test]
fn registry_and_path_packages() {
    let registry = LockPackage::decode(&record("r", "1.0.0", Some(CRATES_IO_SOURCE))).unwrap();
    assert!(registry.is_registry());
    assert!(!registry.is_path());
    let git = LockPackage::decode(&record("g", "1.0.0", Some("git+https://example.com/g"))).unwrap();
    assert!(!git.is_registry());
    assert!(!git.is_path());
    let path = LockPackage::decode(&record("p", "1.0.0", None)).unwrap();
    assert!(!path.is_registry());
    assert!(path.is_path());
    assert_eq!(CRATES_IO_SOURCE, "registry+https://github.com/rust-lang/crates.io-index");
}

#[test]
fn package_without_a_name_is_a_missing_field() {
    let tree = ValueNode::Table(vec![("version".to_string(), text("1.0.0"))]);
    match LockPackage::decode(&tree) {
        Err(DecodeError::MissingField { field, shape }) => {
            assert_eq!(field, "name");
            assert_eq!(shape, "LockPackage");
        }
        other => panic!("unexpected: {:?}", other),
    }
}

#[test]
fn failing_package_is_reported_with_its_index() {
    let tree = ValueNode::Table(vec![(
        "package".to_string(),
        ValueNode::Array(vec![record("a", "1.0.0", None), ValueNode::Integer(7)]),
    )]);
    match CargoLock::decode(&tree) {
        Err(DecodeError::Entry { key, cause }) => {
            assert_eq!(key, "package");
            match *cause {
                DecodeError::Element { index, cause } => {
                    assert_eq!(index, 1);
                    assert!(matches!(*cause, DecodeError::TypeMismatch { expected: Kind::Table, found: Kind::Integer }));
                }
                other => panic!("unexpected: {:?}", other),
            }
        }
        other => panic!("unexpected: {:?}", other),
    }
}

#[test]
fn lockfile_version_out_of_range_is_refused() {
    let tree = ValueNode::Table(vec![("version".to_string(), ValueNode::Integer(-1))]);
    match CargoLock::decode(&tree) {
        Err(DecodeError::Entry { key, cause }) => {
            assert_eq!(key, "version");
            assert!(matches!(*cause, DecodeError::IntegerOutOfRange { value: -1, .. }));
        }
        other => panic!("unexpected: {:?}", other),
    }
}

#[test]
fn text_that_is_no_document_is_a_parse_error() {
    match CargoLock::parse("version = = 4") {
        Err(Error::Parse { message }) => assert!(!message.is_empty()),
        other => panic!("unexpected: {:?}", other),
    }
}

#[test]
fn decoding_twice_gives_the_same_lockfile() {
    let contents = "version = 4\n[[package]]\nname = \"x\"\nversion = \"1.2.3\"\n";
    let a = CargoLock::parse(contents).unwrap();
    let b = CargoLock::parse(contents).unwrap();
    assert_eq!(format!("{:?}", a), format!("{:?}", b));
}
