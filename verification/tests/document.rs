use facet_cargo_toml::document::{lift, read_document, NOT_A_DOCUMENT};
use facet_cargo_toml::{Error, Timestamp, TimestampForm, ValueNode};

#[test]
fn text_becomes_a_tree_in_document_order() {
    let tree = read_document(
        r#"
zeta = 1
alpha = "two"
flag = true
ratio = 1.5
list = [1, "x", [false]]
when = 1979-05-27T07:32:00Z

[table]
key = -7

[[many]]
n = 1

[[many]]
n = 2
"#,
    )
    .unwrap();
    let entries = match tree {
        ValueNode::Table(entries) => entries,
        other => panic!("unexpected: {:?}", other),
    };
    let keys: Vec<&str> = entries.iter().map(|(k, _)| k.as_str()).collect();
    assert_eq!(keys, vec!["zeta", "alpha", "flag", "ratio", "list", "when", "table", "many"]);
    assert!(matches!(entries[0].1, ValueNode::Integer(1)));
    assert!(matches!(&entries[1].1, ValueNode::String(s) if s == "two"));
    assert!(matches!(entries[2].1, ValueNode::Boolean(true)));
    assert!(matches!(entries[3].1, ValueNode::Float(bits) if bits == 1.5f64.to_bits()));
    match &entries[4].1 {
        ValueNode::Array(items) => {
            assert_eq!(items.len(), 3);
            assert!(matches!(items[0], ValueNode::Integer(1)));
            assert!(matches!(&items[1], ValueNode::String(s) if s == "x"));
            assert!(matches!(&items[2], ValueNode::Array(inner) if matches!(inner[0], ValueNode::Boolean(false))));
        }
        other => panic!("unexpected: {:?}", other),
    }
    // This parser hands a timestamp on as its text.
    assert!(matches!(&entries[5].1, ValueNode::String(s) if s == "1979-05-27T07:32:00Z"));
    assert!(matches!(&entries[6].1, ValueNode::Table(t) if t.len() == 1 && t[0].0 == "key" && matches!(t[0].1, ValueNode::Integer(-7))));
    match &entries[7].1 {
        ValueNode::Array(items) => {
            assert_eq!(items.len(), 2);
            assert!(matches!(&items[1], ValueNode::Table(t) if matches!(t[0].1, ValueNode::Integer(2))));
        }
        other => panic!("unexpected: {:?}", other),
    }
}

#[test]
fn empty_text_is_an_empty_table() {
    assert!(matches!(read_document(""), Ok(ValueNode::Table(ref t)) if t.is_empty()));
}

#[test]
fn refused_text_gives_the_message_of_the_parser() {
    match read_document("a = = 1") {
        Err(Error::Parse { message }) => {
            assert!(!message.is_empty());
            assert_ne!(message, NOT_A_DOCUMENT);
        }
        other => panic!("unexpected: {:?}", other),
    }
}

#[test]
fn a_kind_that_no_document_has_gives_no_tree() {
    assert!(lift(&facet_value::Value::NULL).is_none());
    let mut array = facet_value::VArray::new();
    array.push(facet_value::Value::from(true));
    array.push(facet_value::Value::NULL);
    assert!(lift(&array.into_value()).is_none());
}

#[test]
fn dynamic_values_become_nodes() {
    assert!(matches!(lift(&facet_value::Value::from(true)), Some(ValueNode::Boolean(true))));
    assert!(matches!(lift(&facet_value::VNumber::from_i64(-3).into_value()), Some(ValueNode::Integer(-3))));
    assert!(matches!(lift(&facet_value::VNumber::from_f64(2.0).into_value()), Some(ValueNode::Float(bits)) if bits == 2.0f64.to_bits()));
    assert!(matches!(lift(&facet_value::VNumber::from_u64(u64::MAX).into_value()), None));
    assert!(matches!(lift(&facet_value::VString::new("s").into_value()), Some(ValueNode::String(ref s)) if s == "s"));
    let mut object = facet_value::VObject::new();
    object.insert("k", facet_value::Value::from(false));
    match lift(&object.into_value()) {
        Some(ValueNode::Table(entries)) => {
            assert_eq!(entries.len(), 1);
            assert_eq!(entries[0].0, "k");
            assert!(matches!(entries[0].1, ValueNode::Boolean(false)));
        }
        other => panic!("unexpected: {:?}", other),
    }
}

#[test]
fn timestamps_are_held_by_their_parts() {
    let date = facet_value::Value::from(facet_value::VDateTime::new_local_date(1979, 5, 27));
    let expected = Timestamp { form: TimestampForm::LocalDate, year: 1979, month: 5, day: 27, hour: 0, minute: 0, second: 0, nanos: 0 };
    assert!(matches!(lift(&date), Some(ValueNode::DateTime(t)) if t == expected));
    let time = facet_value::Value::from(facet_value::VDateTime::new_local_time(7, 32, 1, 500));
    let expected = Timestamp { form: TimestampForm::LocalTime, year: 0, month: 0, day: 0, hour: 7, minute: 32, second: 1, nanos: 500 };
    assert!(matches!(lift(&time), Some(ValueNode::DateTime(t)) if t == expected));
    let local = facet_value::Value::from(facet_value::VDateTime::new_local_datetime(2001, 2, 3, 4, 5, 6, 7));
    let expected = Timestamp { form: TimestampForm::LocalDateTime, year: 2001, month: 2, day: 3, hour: 4, minute: 5, second: 6, nanos: 7 };
    assert!(matches!(lift(&local), Some(ValueNode::DateTime(t)) if t == expected));
    let offset = facet_value::Value::from(facet_value::VDateTime::new_offset(1979, 5, 27, 0, 32, 0, 0, -420));
    let expected = Timestamp { form: TimestampForm::Offset { offset_minutes: -420 }, year: 1979, month: 5, day: 27, hour: 0, minute: 32, second: 0, nanos: 0 };
    assert!(matches!(lift(&offset), Some(ValueNode::DateTime(t)) if t == expected));
}

#[test]
fn timestamp_with_any_offset_is_read() {
    for minutes in [i16::MIN, -1, 0, 1, i16::MAX] {
        let value = facet_value::Value::from(facet_value::VDateTime::new_offset(-1, 0, 99, 255, 255, 255, u32::MAX, minutes));
        match lift(&value) {
            Some(ValueNode::DateTime(t)) => {
                assert_eq!(t.form, TimestampForm::Offset { offset_minutes: minutes });
                assert_eq!((t.year, t.month, t.day), (-1, 0, 99));
                assert_eq!((t.hour, t.minute, t.second, t.nanos), (255, 255, 255, u32::MAX));
            }
            other => panic!("unexpected: {:?}", other),
        }
    }
    let inside = facet_value::VArray::from_iter([facet_value::Value::from(facet_value::VDateTime::new_offset(2000, 1, 1, 0, 0, 0, 0, i16::MIN))]);
    assert!(matches!(lift(&inside.into_value()), Some(ValueNode::Array(ref items)) if matches!(items[0], ValueNode::DateTime(_))));
}
