//! From text to a document tree, through the TOML parser.

use vstd::prelude::*;
use facet_value::DateTimeKind;
use crate::decode::Decode;
use crate::error::{Error, ErrorModel};
use crate::value::{entries_model, items_model, Node, Timestamp, TimestampForm, ValueNode};

verus! {

/// The parser's dynamic value. Nothing inside it is visible here: the
/// functions below read it.
#[verifier::external_type_specification]
#[verifier::external_body]
pub struct ExDynamic(facet_value::Value);

/// The document node that a dynamic value stands for, or nothing where the
/// value, or one below it, is of a kind that no document has (null, bytes, a
/// qualified name, a UUID, an integer beyond 64 signed bits).
pub uninterp spec fn node_of(v: facet_value::Value) -> Option<Node>;

/// How deep a dynamic value nests: what an array or an object holds lies
/// less deep than the array or object itself.
pub uninterp spec fn depth_of(v: facet_value::Value) -> nat;

/// What the TOML parser makes of a text: the node of the dynamic value that
/// it builds, or the message that it refuses the text with.
pub uninterp spec fn toml_document(text: Seq<char>) -> Result<Option<Node>, Seq<char>>;

/// The node of an array that holds `items`.
pub open spec fn array_node(items: Seq<facet_value::Value>) -> Option<Node> {
    if forall|i: int| 0 <= i < items.len() ==> (#[trigger] node_of(items[i])) is Some {
        Some(Node::Array(Seq::new(items.len(), |i: int| node_of(items[i])->Some_0)))
    } else {
        None
    }
}

/// The node of an object that holds `entries`.
pub open spec fn table_node(entries: Seq<(String, facet_value::Value)>) -> Option<Node> {
    if forall|i: int| 0 <= i < entries.len() ==> (#[trigger] node_of(entries[i].1)) is Some {
        Some(
            Node::Table(
                Seq::new(entries.len(), |i: int| (entries[i].0@, node_of(entries[i].1)->Some_0)),
            ),
        )
    } else {
        None
    }
}

/// `facet_toml::from_str` at `facet_value::Value`: parses a text. Claimed: the
/// outcome depends on the text alone, so it has the name `toml_document`.
#[verifier::external_body]
fn read_dynamic(text: &str) -> (r: Result<facet_value::Value, String>)
    ensures
        match r {
            Ok(v) => toml_document(text@) == Ok::<Option<Node>, Seq<char>>(node_of(v)),
            Err(message) => toml_document(text@) == Err::<Option<Node>, Seq<char>>(message@),
        },
{
    facet_toml::from_str::<facet_value::Value>(text).map_err(|e| e.to_string())
}

/// `facet_value::Value::as_bool`. Claimed: it gives the boolean of a boolean
/// value and nothing for any other.
#[verifier::external_body]
fn dynamic_bool(v: &facet_value::Value) -> (r: Option<bool>)
    ensures
        match r {
            Some(b) => node_of(*v) == Some(Node::Boolean(b)),
            None => !(node_of(*v) matches Some(Node::Boolean(_))),
        },
{
    v.as_bool()
}

/// `facet_value::Value::as_string` and `VString::as_str`. Claimed: they give
/// the text of a string value and nothing for any other.
#[verifier::external_body]
fn dynamic_text(v: &facet_value::Value) -> (r: Option<String>)
    ensures
        match r {
            Some(s) => node_of(*v) == Some(Node::String(s@)),
            None => !(node_of(*v) matches Some(Node::String(_))),
        },
{
    v.as_string().map(|s| s.as_str().to_owned())
}

/// `facet_value::VNumber::is_float`. Claimed: it tells whether the value is a
/// number that was made from a float.
#[verifier::external_body]
fn dynamic_is_float(v: &facet_value::Value) -> (float: bool)
    ensures
        float == (node_of(*v) matches Some(Node::Float(_))),
{
    v.as_number().is_some_and(|n| n.is_float())
}

/// `facet_value::VNumber::to_f64_lossy`, as a bit pattern. Claimed: of a
/// number made from a float, it gives that float.
#[verifier::external_body]
fn dynamic_float_bits(v: &facet_value::Value) -> (r: Option<u64>)
    ensures
        node_of(*v) matches Some(Node::Float(bits)) ==> r == Some(bits),
{
    v.as_number().map(|n| n.to_f64_lossy().to_bits())
}

/// `facet_value::VNumber::to_i64`. Claimed: of a number that was not made
/// from a float, it gives the integer where that fits 64 signed bits; it
/// gives nothing for a value that is no number.
#[verifier::external_body]
fn dynamic_integer(v: &facet_value::Value) -> (r: Option<i64>)
    ensures
        match r {
            Some(i) => node_of(*v) == Some(Node::Integer(i)) || node_of(*v) matches Some(
                Node::Float(_),
            ),
            None => !(node_of(*v) matches Some(Node::Integer(_))),
        },
{
    v.as_number().and_then(|n| n.to_i64())
}

/// `facet_value::Value::as_datetime`, and of `VDateTime` the accessors
/// `kind`, `year`, `month`, `day`, `hour`, `minute`, `second` and `nanos`,
/// which read the stored parts. Claimed: they give the parts of a timestamp
/// and nothing for any other value.
#[verifier::external_body]
fn dynamic_datetime(v: &facet_value::Value) -> (r: Option<Timestamp>)
    ensures
        match r {
            Some(stamp) => node_of(*v) == Some(Node::DateTime(stamp)),
            None => !(node_of(*v) matches Some(Node::DateTime(_))),
        },
{
    v.as_datetime().map(|d| Timestamp {
        form: match d.kind() {
            DateTimeKind::Offset { offset_minutes } => TimestampForm::Offset { offset_minutes },
            DateTimeKind::LocalDateTime => TimestampForm::LocalDateTime,
            DateTimeKind::LocalDate => TimestampForm::LocalDate,
            DateTimeKind::LocalTime => TimestampForm::LocalTime,
        },
        year: d.year(),
        month: d.month(),
        day: d.day(),
        hour: d.hour(),
        minute: d.minute(),
        second: d.second(),
        nanos: d.nanos(),
    })
}

/// `facet_value::Value::as_array` and `VArray::as_slice`. Claimed: they give
/// the items of an array, in order, and nothing for any other value; each
/// item lies less deep than the array.
#[verifier::external_body]
fn dynamic_items(v: &facet_value::Value) -> (r: Option<Vec<facet_value::Value>>)
    ensures
        match r {
            Some(items) => node_of(*v) == array_node(items@) && forall|i: int|
                0 <= i < items.len() ==> depth_of(#[trigger] items[i]) < depth_of(*v),
            None => !(node_of(*v) matches Some(Node::Array(_))),
        },
{
    v.as_array().map(|a| a.as_slice().to_vec())
}

/// `facet_value::Value::as_object` and `VObject::iter`. Claimed: they give
/// the entries of an object, in the order of insertion, and nothing for any
/// other value; each value lies less deep than the object.
#[verifier::external_body]
fn dynamic_entries(v: &facet_value::Value) -> (r: Option<Vec<(String, facet_value::Value)>>)
    ensures
        match r {
            Some(entries) => node_of(*v) == table_node(entries@) && forall|i: int|
                0 <= i < entries.len() ==> depth_of((#[trigger] entries[i]).1) < depth_of(*v),
            None => !(node_of(*v) matches Some(Node::Table(_))),
        },
{
    v.as_object().map(|o| o.iter().map(|(k, x)| (k.as_str().to_owned(), x.clone())).collect())
}

/// Builds the document tree that a dynamic value stands for: the tree, or
/// nothing where the value holds a kind that no document has.
pub fn lift(v: &facet_value::Value) -> (r: Option<ValueNode>)
    ensures
        r.deep_view() == node_of(*v),
    decreases depth_of(*v),
{
    if let Some(b) = dynamic_bool(v) {
        return Some(ValueNode::Boolean(b));
    }
    if let Some(s) = dynamic_text(v) {
        return Some(ValueNode::String(s));
    }
    if dynamic_is_float(v) {
        return match dynamic_float_bits(v) {
            Some(bits) => Some(ValueNode::Float(bits)),
            None => None,
        };
    }
    if let Some(i) = dynamic_integer(v) {
        return Some(ValueNode::Integer(i));
    }
    if let Some(stamp) = dynamic_datetime(v) {
        return Some(ValueNode::DateTime(stamp));
    }
    if let Some(items) = dynamic_items(v) {
        let mut out: Vec<ValueNode> = Vec::new();
        let mut i: usize = 0;
        while i < items.len()
            invariant
                i <= items.len(),
                out.len() == i,
                node_of(*v) == array_node(items@),
                forall|j: int|
                    0 <= j < items.len() ==> depth_of(#[trigger] items[j]) < depth_of(*v),
                forall|j: int| 0 <= j < i ==> #[trigger] node_of(items[j]) == Some(out[j].model()),
            decreases items.len() - i,
        {
            match lift(&items[i]) {
                Some(x) => out.push(x),
                None => {
                    return None;
                },
            }
            i += 1;
        }
        assert(items_model(out) =~= array_node(items@)->Some_0->Array_0);
        return Some(ValueNode::Array(out));
    }
    if let Some(entries) = dynamic_entries(v) {
        let mut out: Vec<(String, ValueNode)> = Vec::new();
        let mut i: usize = 0;
        while i < entries.len()
            invariant
                i <= entries.len(),
                out.len() == i,
                node_of(*v) == table_node(entries@),
                forall|j: int|
                    0 <= j < entries.len() ==> depth_of((#[trigger] entries[j]).1) < depth_of(*v),
                forall|j: int|
                    0 <= j < i ==> out[j].0@ == entries[j].0@ && #[trigger] node_of(entries[j].1)
                        == Some(out[j].1.model()),
            decreases entries.len() - i,
        {
            match lift(&entries[i].1) {
                Some(x) => out.push((entries[i].0.clone(), x)),
                None => {
                    return None;
                },
            }
            i += 1;
        }
        assert(entries_model(out) =~= table_node(entries@)->Some_0->Table_0);
        return Some(ValueNode::Table(out));
    }
    None
}

/// The message for a parsed text that holds a value of a kind that no
/// document has.
pub const NOT_A_DOCUMENT: &'static str = "the text holds a value of a kind that no document has";

/// What reading a text gives: its document tree, or why it has none.
pub open spec fn document(text: Seq<char>) -> Result<Node, ErrorModel> {
    match toml_document(text) {
        Err(message) => Err(ErrorModel::Parse { message }),
        Ok(None) => Err(ErrorModel::Parse { message: NOT_A_DOCUMENT@ }),
        Ok(Some(node)) => Ok(node),
    }
}

/// Reads a text as a document tree.
pub fn read_document(text: &str) -> (r: Result<ValueNode, Error>)
    ensures
        match r {
            Ok(v) => document(text@) == Ok::<Node, ErrorModel>(v.model()),
            Err(e) => document(text@) == Err::<Node, ErrorModel>(e.model()),
        },
{
    match read_dynamic(text) {
        Err(message) => Err(Error::Parse { message }),
        Ok(dynamic) => match lift(&dynamic) {
            Some(v) => Ok(v),
            None => Err(Error::Parse { message: NOT_A_DOCUMENT.to_owned() }),
        },
    }
}

/// What reading a text and decoding its document as a `T` gives: the value,
/// or the error, which for a document of another shape holds the message of
/// the failure.
pub open spec fn parsed<T: Decode>(text: Seq<char>) -> Result<T::V, ErrorModel> {
    match document(text) {
        Err(e) => Err(e),
        Ok(node) => match T::decoded(node) {
            Ok(x) => Ok(x),
            Err(cause) => Err(ErrorModel::Parse { message: cause.text() }),
        },
    }
}

/// Reads a text and decodes its document as a `T`.
pub fn parse_as<T: Decode>(text: &str) -> (r: Result<T, Error>)
    ensures
        match r {
            Ok(x) => parsed::<T>(text@) == Ok::<T::V, ErrorModel>(x.deep_view()),
            Err(e) => parsed::<T>(text@) == Err::<T::V, ErrorModel>(e.model()),
        },
{
    let v = read_document(text)?;
    match T::decode(&v) {
        Ok(x) => Ok(x),
        Err(cause) => Err(Error::Parse { message: cause.message() }),
    }
}

} // verus!
