use facet_cargo_toml::decode::{coerce_i32, coerce_u32, coerce_u8, field, find, required};
use facet_cargo_toml::{
    DebugLevel, Decode, DecodeError, Dependency, Edition, IntTarget, Kind, LintConfig, LintLevel,
    Mapping, OptLevel, StringOrBool, Timestamp, TimestampForm, ValueNode, WorkspaceDependency,
    WorkspaceRef,
};

fn text(s: &str) -> ValueNode {
    ValueNode::String(s.to_string())
}

fn date(year: i32, month: u8, day: u8) -> Timestamp {
    Timestamp { form: TimestampForm::LocalDate, year, month, day, hour: 0, minute: 0, second: 0, nanos: 0 }
}

fn table(entries: Vec<(&str, ValueNode)>) -> ValueNode {
    ValueNode::Table(entries.into_iter().map(|(k, v)| (k.to_string(), v)).collect())
}

#[test]
fn narrowing_to_eight_unsigned_bits() {
    assert!(matches!(coerce_u8(255), Ok(255)));
    assert!(matches!(coerce_u8(0), Ok(0)));
    assert!(matches!(coerce_u8(2), Ok(2)));
    assert!(matches!(coerce_u8(256), Err(DecodeError::IntegerOutOfRange { value: 256, target: IntTarget::U8 })));
    assert!(matches!(coerce_u8(300), Err(DecodeError::IntegerOutOfRange { value: 300, target: IntTarget::U8 })));
    assert!(matches!(coerce_u8(-1), Err(DecodeError::IntegerOutOfRange { value: -1, target: IntTarget::U8 })));
}

#[test]
fn narrowing_to_thirty_two_bits() {
    assert!(matches!(coerce_i32(-1), Ok(-1)));
    assert!(matches!(coerce_i32(2147483647), Ok(2147483647)));
    assert!(matches!(coerce_i32(-2147483648), Ok(-2147483648)));
    assert!(matches!(coerce_i32(2147483648), Err(DecodeError::IntegerOutOfRange { value: 2147483648, target: IntTarget::I32 })));
    assert!(matches!(coerce_u32(4294967295), Ok(4294967295)));
    assert!(matches!(coerce_u32(4294967296), Err(DecodeError::IntegerOutOfRange { value: 4294967296, target: IntTarget::U32 })));
    assert!(matches!(coerce_u32(-1), Err(DecodeError::IntegerOutOfRange { value: -1, target: IntTarget::U32 })));
}

#[test]
fn scalars_take_only_their_own_kind() {
    assert_eq!(String::decode(&text("a")).unwrap(), "a");
    assert!(matches!(String::decode(&ValueNode::Boolean(true)), Err(DecodeError::TypeMismatch { expected: Kind::String, found: Kind::Boolean })));
    assert!(matches!(bool::decode(&text("true")), Err(DecodeError::TypeMismatch { expected: Kind::Boolean, found: Kind::String })));
    assert!(matches!(bool::decode(&ValueNode::Boolean(false)), Ok(false)));
    assert!(matches!(u8::decode(&ValueNode::Integer(255)), Ok(255)));
    assert!(matches!(u8::decode(&ValueNode::Integer(256)), Err(DecodeError::IntegerOutOfRange { .. })));
    assert!(matches!(u8::decode(&ValueNode::Float(0)), Err(DecodeError::TypeMismatch { expected: Kind::Integer, found: Kind::Float })));
    assert!(matches!(i32::decode(&ValueNode::Integer(-1)), Ok(-1)));
    assert!(matches!(u32::decode(&ValueNode::DateTime(date(1979, 5, 27))), Err(DecodeError::TypeMismatch { expected: Kind::Integer, found: Kind::DateTime })));
}

#[test]
fn arrays_report_the_first_failing_item() {
    let good = ValueNode::Array(vec![text("a"), text("b")]);
    assert_eq!(Vec::<String>::decode(&good).unwrap(), vec!["a".to_string(), "b".to_string()]);
    let bad = ValueNode::Array(vec![text("a"), ValueNode::Integer(1), ValueNode::Boolean(true)]);
    match Vec::<String>::decode(&bad) {
        Err(DecodeError::Element { index, cause }) => {
            assert_eq!(index, 1);
            assert!(matches!(*cause, DecodeError::TypeMismatch { expected: Kind::String, found: Kind::Integer }));
        }
        other => panic!("unexpected: {:?}", other),
    }
    assert!(matches!(Vec::<String>::decode(&text("a")), Err(DecodeError::TypeMismatch { expected: Kind::Array, found: Kind::String })));
}

#[test]
fn mappings_report_the_first_failing_entry() {
    let good = table(vec![("a", ValueNode::Integer(1)), ("b", ValueNode::Integer(2))]);
    let m = Mapping::<u8>::decode(&good).unwrap();
    assert_eq!(m.len(), 2);
    assert_eq!(m.get("b"), Some(&2));
    assert_eq!(m.get("c"), None);
    let bad = table(vec![("a", ValueNode::Integer(1)), ("b", ValueNode::Integer(999)), ("c", text("x"))]);
    match Mapping::<u8>::decode(&bad) {
        Err(DecodeError::Entry { key, cause }) => {
            assert_eq!(key, "b");
            assert!(matches!(*cause, DecodeError::IntegerOutOfRange { value: 999, target: IntTarget::U8 }));
        }
        other => panic!("unexpected: {:?}", other),
    }
    assert!(matches!(Mapping::<u8>::decode(&ValueNode::Array(vec![])), Err(DecodeError::TypeMismatch { expected: Kind::Table, found: Kind::Array })));
}

#[test]
fn lookup_takes_the_first_entry_of_a_key() {
    let entries = vec![
        ("a".to_string(), ValueNode::Integer(1)),
        ("b".to_string(), ValueNode::Integer(2)),
        ("a".to_string(), ValueNode::Integer(3)),
    ];
    assert!(matches!(find(&entries, "a"), Some(ValueNode::Integer(1))));
    assert!(matches!(find(&entries, "b"), Some(ValueNode::Integer(2))));
    assert!(find(&entries, "c").is_none());
    assert!(find(&entries, "").is_none());
}

#[test]
fn optional_and_required_fields() {
    let entries = vec![("n".to_string(), ValueNode::Integer(7)), ("t".to_string(), ValueNode::Table(vec![]))];
    assert!(matches!(field::<u8>(&entries, "n"), Ok(Some(7))));
    assert!(matches!(field::<u8>(&entries, "m"), Ok(None)));
    assert!(matches!(field::<Mapping<u8>>(&entries, "t"), Ok(Some(ref m)) if m.is_empty()));
    match field::<String>(&entries, "n") {
        Err(DecodeError::Entry { key, cause }) => {
            assert_eq!(key, "n");
            assert!(matches!(*cause, DecodeError::TypeMismatch { expected: Kind::String, found: Kind::Integer }));
        }
        other => panic!("unexpected: {:?}", other),
    }
    assert!(matches!(required::<u8>(&entries, "n", "Shape"), Ok(7)));
    match required::<u8>(&entries, "m", "Shape") {
        Err(DecodeError::MissingField { field, shape }) => {
            assert_eq!(field, "m");
            assert_eq!(shape, "Shape");
        }
        other => panic!("unexpected: {:?}", other),
    }
}

#[test]
fn marker_is_tried_before_the_permissive_record() {
    let marker = table(vec![("workspace", ValueNode::Boolean(true))]);
    assert!(matches!(Dependency::decode(&marker), Ok(Dependency::Workspace(ref w)) if w.workspace));
    let detailed = table(vec![("version", text("1"))]);
    assert!(matches!(Dependency::decode(&detailed), Ok(Dependency::Detailed(ref d)) if d.version.as_deref() == Some("1")));
    let empty = table(vec![]);
    assert!(matches!(Dependency::decode(&empty), Ok(Dependency::Detailed(_))));
    let bare = text("1.2");
    assert!(matches!(Dependency::decode(&bare), Ok(Dependency::Version(ref v)) if v == "1.2"));
}

#[test]
fn every_failed_variant_is_listed_in_order() {
    match Dependency::decode(&ValueNode::Integer(1)) {
        Err(DecodeError::NoMatchingVariant { attempted }) => {
            let names: Vec<&str> = attempted.iter().map(|(n, _)| n.as_str()).collect();
            assert_eq!(names, vec!["Version", "Workspace", "Detailed"]);
            assert!(matches!(attempted[0].1, DecodeError::TypeMismatch { expected: Kind::String, found: Kind::Integer }));
            assert!(matches!(attempted[1].1, DecodeError::TypeMismatch { expected: Kind::Table, found: Kind::Integer }));
            assert!(matches!(attempted[2].1, DecodeError::TypeMismatch { expected: Kind::Table, found: Kind::Integer }));
        }
        other => panic!("unexpected: {:?}", other),
    }
    let bad_detail = table(vec![("version", ValueNode::Integer(1))]);
    match Dependency::decode(&bad_detail) {
        Err(DecodeError::NoMatchingVariant { attempted }) => {
            assert_eq!(attempted.len(), 3);
            assert!(matches!(attempted[1].1, DecodeError::UnknownField { ref key } if key == "version"));
            assert!(matches!(attempted[2].1, DecodeError::Entry { ref key, .. } if key == "version"));
        }
        other => panic!("unexpected: {:?}", other),
    }
}

#[test]
fn closed_shape_refuses_an_unknown_key() {
    let typo = table(vec![("workspace", ValueNode::Boolean(true)), ("feature", ValueNode::Array(vec![]))]);
    assert!(matches!(WorkspaceDependency::decode(&typo), Err(DecodeError::UnknownField { ref key }) if key == "feature"));
    let full = table(vec![
        ("workspace", ValueNode::Boolean(true)),
        ("features", ValueNode::Array(vec![text("f")])),
        ("optional", ValueNode::Boolean(true)),
        ("default-features", ValueNode::Boolean(false)),
    ]);
    let w = WorkspaceDependency::decode(&full).unwrap();
    assert!(w.workspace);
    assert_eq!(w.features, Some(vec!["f".to_string()]));
    assert_eq!(w.optional, Some(true));
    assert_eq!(w.default_features, Some(false));
    let missing = table(vec![("optional", ValueNode::Boolean(true))]);
    assert!(matches!(WorkspaceDependency::decode(&missing), Err(DecodeError::MissingField { ref field, ref shape }) if field == "workspace" && shape == "WorkspaceDependency"));
    // The open marker shape ignores what it does not declare.
    assert!(matches!(WorkspaceRef::decode(&typo), Ok(WorkspaceRef { workspace: true })));
}

#[test]
fn polymorphic_scalars_go_by_the_kind_of_the_node() {
    assert!(matches!(DebugLevel::decode(&ValueNode::Integer(2)), Ok(DebugLevel::Number(2))));
    assert!(matches!(DebugLevel::decode(&ValueNode::Boolean(true)), Ok(DebugLevel::Bool(true))));
    assert!(matches!(DebugLevel::decode(&text("full")), Ok(DebugLevel::String(ref s)) if s == "full"));
    assert!(matches!(OptLevel::decode(&ValueNode::Integer(0)), Ok(OptLevel::Number(0))));
    assert!(matches!(OptLevel::decode(&text("s")), Ok(OptLevel::String(ref s)) if s == "s"));
    assert!(matches!(StringOrBool::decode(&text("true")), Ok(StringOrBool::String(ref s)) if s == "true"));
    match OptLevel::decode(&ValueNode::Integer(300)) {
        Err(DecodeError::NoMatchingVariant { attempted }) => {
            assert_eq!(attempted[0].0, "Number");
            assert!(matches!(attempted[0].1, DecodeError::IntegerOutOfRange { value: 300, target: IntTarget::U8 }));
            assert_eq!(attempted[1].0, "String");
            assert!(matches!(attempted[1].1, DecodeError::TypeMismatch { expected: Kind::String, found: Kind::Integer }));
        }
        other => panic!("unexpected: {:?}", other),
    }
}

#[test]
fn tagged_shapes_go_by_the_name() {
    assert!(matches!(Edition::decode(&text("2015")), Ok(Edition::E2015)));
    assert!(matches!(Edition::decode(&text("2018")), Ok(Edition::E2018)));
    assert!(matches!(Edition::decode(&text("2021")), Ok(Edition::E2021)));
    assert!(matches!(Edition::decode(&text("2024")), Ok(Edition::E2024)));
    assert!(matches!(Edition::decode(&text("2022")), Err(DecodeError::UnknownVariant { ref name }) if name == "2022"));
    assert!(matches!(Edition::decode(&ValueNode::Integer(2021)), Err(DecodeError::TypeMismatch { expected: Kind::String, found: Kind::Integer })));
}

#[test]
fn lint_levels() {
    assert!(matches!(LintLevel::decode(&text("forbid")), Ok(LintLevel::Forbid)));
    assert!(matches!(LintLevel::decode(&text("deny")), Ok(LintLevel::Deny)));
    assert!(matches!(LintLevel::decode(&text("warn")), Ok(LintLevel::Warn)));
    assert!(matches!(LintLevel::decode(&text("allow")), Ok(LintLevel::Allow)));
    match LintLevel::decode(&text("loud")) {
        Err(DecodeError::NoMatchingVariant { attempted }) => {
            let names: Vec<&str> = attempted.iter().map(|(n, _)| n.as_str()).collect();
            assert_eq!(names, vec!["Config", "Forbid", "Deny", "Warn", "Allow"]);
            assert!(matches!(attempted[4].1, DecodeError::UnknownVariant { ref name } if name == "loud"));
        }
        other => panic!("unexpected: {:?}", other),
    }
    assert!(matches!(LintConfig::decode(&table(vec![])), Err(DecodeError::MissingField { ref field, ref shape }) if field == "level" && shape == "LintConfig"));
}

#[test]
fn a_copy_of_a_tree_is_the_same_tree() {
    let tree = table(vec![
        ("a", ValueNode::Array(vec![ValueNode::Integer(1), ValueNode::Float(1.5f64.to_bits())])),
        ("b", table(vec![("c", ValueNode::DateTime(date(1979, 5, 27)))])),
    ]);
    assert_eq!(format!("{:?}", tree.duplicate()), format!("{:?}", tree));
    assert_eq!(tree.kind(), Kind::Table);
    assert_eq!(ValueNode::Float(0).kind(), Kind::Float);
}

#[test]
fn messages_of_failures() {
    let missing = LintConfig::decode(&table(vec![])).unwrap_err();
    assert_eq!(missing.message(), "missing field `level` in LintConfig");
    let unknown = WorkspaceDependency::decode(&table(vec![("workspace", ValueNode::Boolean(true)), ("oops", ValueNode::Integer(1))])).unwrap_err();
    assert_eq!(unknown.message(), "unknown field `oops`");
    let mismatch = String::decode(&ValueNode::Array(vec![])).unwrap_err();
    assert_eq!(mismatch.message(), "expected string, found array");
    assert_eq!(coerce_u8(256).unwrap_err().message(), "integer 256 out of range for u8");
    assert_eq!(coerce_u8(-1).unwrap_err().message(), "integer -1 out of range for u8");
    assert_eq!(coerce_i32(i64::MIN).unwrap_err().message(), "integer -9223372036854775808 out of range for i32");
    assert_eq!(coerce_u32(i64::MAX).unwrap_err().message(), "integer 9223372036854775807 out of range for u32");
    assert_eq!(Edition::decode(&text("2022")).unwrap_err().message(), "unknown variant `2022`");
    let items = ValueNode::Array(vec![text("a"), text("b"), text("c"), text("d"), text("e"), text("f"), text("g"), text("h"), text("i"), text("j"), text("k"), ValueNode::Boolean(true)]);
    assert_eq!(Vec::<String>::decode(&items).unwrap_err().message(), "item 11: expected string, found boolean");
    let nested = table(vec![("opt-level", ValueNode::Integer(300))]);
    assert_eq!(
        facet_cargo_toml::Profile::decode(&nested).unwrap_err().message(),
        "opt-level: no variant matched; Number: integer 300 out of range for u8; String: expected string, found integer"
    );
}

#[test]
fn messages_of_errors() {
    let io = facet_cargo_toml::Error::io("Cargo.toml".to_string(), facet_cargo_toml::IoError::new("No such file".to_string()));
    assert_eq!(io.message(), "failed to read Cargo.toml: No such file");
    let decode = facet_cargo_toml::CargoToml::parse("package = 1\n").unwrap_err();
    assert_eq!(decode.message(), "parse error: package: expected table, found integer");
    let syntax = facet_cargo_toml::CargoToml::parse("a = = 1\n").unwrap_err();
    assert!(syntax.message().starts_with("parse error: "));
    assert!(syntax.message().len() > "parse error: ".len());
}
