//! The decoder: how a document node becomes a typed value.

use vstd::prelude::*;
use crate::error::{attempts_model, DecodeError, Fault, IntTarget};
use crate::value::{entries_model, Entries, Kind, Node, ValueNode};

verus! {

/// The value under the first entry of `entries`, from position `from` on, whose key is `key`.
pub open spec fn find_from<M>(entries: Seq<(Seq<char>, M)>, key: Seq<char>, from: int) -> Option<M>
    decreases entries.len() - from,
{
    if from < 0 || from >= entries.len() {
        None
    } else if entries[from].0 == key {
        Some(entries[from].1)
    } else {
        find_from(entries, key, from + 1)
    }
}

/// The value under `key` in a table, if the key is present.
pub open spec fn lookup<M>(entries: Seq<(Seq<char>, M)>, key: Seq<char>) -> Option<M> {
    find_from(entries, key, 0)
}

/// What a decoder returns, taken to the models of the value and of the failure.
pub open spec fn outcome<T: DeepView>(r: Result<T, DecodeError>) -> Result<T::V, Fault> {
    match r {
        Ok(x) => Ok(x.deep_view()),
        Err(e) => Err(e.model()),
    }
}

/// A type that can be decoded from a document node.
///
/// `decoded` states, over models, what decoding a node gives: the value, or
/// the failure. `decode` computes exactly that.
pub trait Decode: Sized + DeepView {
    /// What decoding `node` gives: the model of the value, or of the failure.
    spec fn decoded(node: Node) -> Result<Self::V, Fault>;

    /// Decodes a node. Nothing is returned but the whole value or the failure.
    fn decode(value: &ValueNode) -> (r: Result<Self, DecodeError>)
        ensures
            outcome(r) == Self::decoded(value.model()),
    ;
}

/// Whether two texts hold the same characters.
pub fn same_text(a: &String, b: &str) -> (same: bool)
    ensures
        same == (a@ == b@),
{
    let owned = b.to_owned();
    *a == owned
}

/// Looks `key` up in a table.
pub fn find<'a>(entries: &'a Vec<(String, ValueNode)>, key: &str) -> (found: Option<&'a ValueNode>)
    ensures
        match found {
            Some(v) => lookup(entries_model(*entries), key@) == Some(v.model()),
            None => lookup(entries_model(*entries), key@) is None,
        },
{
    let mut i: usize = 0;
    while i < entries.len()
        invariant
            i <= entries.len(),
            lookup(entries_model(*entries), key@) == find_from(entries_model(*entries), key@, i as int),
        decreases entries.len() - i,
    {
        if same_text(&entries[i].0, key) {
            return Some(&entries[i].1);
        }
        i += 1;
    }
    None
}

/// The failure of a node of the wrong kind.
pub open spec fn mismatch(expected: Kind, node: Node) -> Fault {
    Fault::TypeMismatch { expected, found: node.kind() }
}

/// The entries of a table node.
pub fn table_of(value: &ValueNode) -> (r: Result<&Vec<(String, ValueNode)>, DecodeError>)
    ensures
        match r {
            Ok(entries) => value.model() == Node::Table(entries_model(*entries)),
            Err(e) => !(value.model() is Table) && e.model() == mismatch(Kind::Table, value.model()),
        },
{
    match value {
        ValueNode::Table(entries) => Ok(entries),
        _ => Err(DecodeError::TypeMismatch { expected: Kind::Table, found: value.kind() }),
    }
}

/// The text of a string node.
pub fn text_of(value: &ValueNode) -> (r: Result<&String, DecodeError>)
    ensures
        match r {
            Ok(s) => value.model() == Node::String(s@),
            Err(e) => !(value.model() is String) && e.model() == mismatch(Kind::String, value.model()),
        },
{
    match value {
        ValueNode::String(s) => Ok(s),
        _ => Err(DecodeError::TypeMismatch { expected: Kind::String, found: value.kind() }),
    }
}

/// A document integer as an 8-bit unsigned integer, where it is one.
pub open spec fn coerced_u8(value: i64) -> Result<u8, Fault> {
    if 0 <= value <= u8::MAX {
        Ok(value as u8)
    } else {
        Err(Fault::IntegerOutOfRange { value, target: IntTarget::U8 })
    }
}

/// A document integer as a 32-bit unsigned integer, where it is one.
pub open spec fn coerced_u32(value: i64) -> Result<u32, Fault> {
    if 0 <= value <= u32::MAX {
        Ok(value as u32)
    } else {
        Err(Fault::IntegerOutOfRange { value, target: IntTarget::U32 })
    }
}

/// A document integer as a 32-bit signed integer, where it is one.
pub open spec fn coerced_i32(value: i64) -> Result<i32, Fault> {
    if i32::MIN <= value <= i32::MAX {
        Ok(value as i32)
    } else {
        Err(Fault::IntegerOutOfRange { value, target: IntTarget::I32 })
    }
}

/// Narrows a document integer to `u8`: it succeeds exactly on 0 to 255 and
/// keeps the value.
pub fn coerce_u8(value: i64) -> (r: Result<u8, DecodeError>)
    ensures
        outcome(r) == coerced_u8(value),
        r is Ok <==> 0 <= value <= 255,
        r matches Ok(n) ==> n == value,
{
    if 0 <= value && value <= 255 {
        Ok(value as u8)
    } else {
        Err(DecodeError::IntegerOutOfRange { value, target: IntTarget::U8 })
    }
}

/// Narrows a document integer to `u32`: it succeeds exactly on 0 to 4294967295
/// and keeps the value.
pub fn coerce_u32(value: i64) -> (r: Result<u32, DecodeError>)
    ensures
        outcome(r) == coerced_u32(value),
        r is Ok <==> 0 <= value <= 4294967295,
        r matches Ok(n) ==> n == value,
{
    if 0 <= value && value <= 4294967295 {
        Ok(value as u32)
    } else {
        Err(DecodeError::IntegerOutOfRange { value, target: IntTarget::U32 })
    }
}

/// Narrows a document integer to `i32`: it succeeds exactly on -2147483648 to
/// 2147483647 and keeps the value.
pub fn coerce_i32(value: i64) -> (r: Result<i32, DecodeError>)
    ensures
        outcome(r) == coerced_i32(value),
        r is Ok <==> -2147483648 <= value <= 2147483647,
        r matches Ok(n) ==> n == value,
{
    if -2147483648 <= value && value <= 2147483647 {
        Ok(value as i32)
    } else {
        Err(DecodeError::IntegerOutOfRange { value, target: IntTarget::I32 })
    }
}

impl Decode for String {
    open spec fn decoded(node: Node) -> Result<Seq<char>, Fault> {
        match node {
            Node::String(s) => Ok(s),
            _ => Err(mismatch(Kind::String, node)),
        }
    }

    fn decode(value: &ValueNode) -> (r: Result<Self, DecodeError>) {
        match value {
            ValueNode::String(s) => Ok(s.clone()),
            _ => Err(DecodeError::TypeMismatch { expected: Kind::String, found: value.kind() }),
        }
    }
}

impl Decode for bool {
    open spec fn decoded(node: Node) -> Result<bool, Fault> {
        match node {
            Node::Boolean(b) => Ok(b),
            _ => Err(mismatch(Kind::Boolean, node)),
        }
    }

    fn decode(value: &ValueNode) -> (r: Result<Self, DecodeError>) {
        match value {
            ValueNode::Boolean(b) => Ok(*b),
            _ => Err(DecodeError::TypeMismatch { expected: Kind::Boolean, found: value.kind() }),
        }
    }
}

impl Decode for u8 {
    open spec fn decoded(node: Node) -> Result<u8, Fault> {
        match node {
            Node::Integer(i) => coerced_u8(i),
            _ => Err(mismatch(Kind::Integer, node)),
        }
    }

    fn decode(value: &ValueNode) -> (r: Result<Self, DecodeError>) {
        match value {
            ValueNode::Integer(i) => coerce_u8(*i),
            _ => Err(DecodeError::TypeMismatch { expected: Kind::Integer, found: value.kind() }),
        }
    }
}

impl Decode for u32 {
    open spec fn decoded(node: Node) -> Result<u32, Fault> {
        match node {
            Node::Integer(i) => coerced_u32(i),
            _ => Err(mismatch(Kind::Integer, node)),
        }
    }

    fn decode(value: &ValueNode) -> (r: Result<Self, DecodeError>) {
        match value {
            ValueNode::Integer(i) => coerce_u32(*i),
            _ => Err(DecodeError::TypeMismatch { expected: Kind::Integer, found: value.kind() }),
        }
    }
}

impl Decode for i32 {
    open spec fn decoded(node: Node) -> Result<i32, Fault> {
        match node {
            Node::Integer(i) => coerced_i32(i),
            _ => Err(mismatch(Kind::Integer, node)),
        }
    }

    fn decode(value: &ValueNode) -> (r: Result<Self, DecodeError>) {
        match value {
            ValueNode::Integer(i) => coerce_i32(*i),
            _ => Err(DecodeError::TypeMismatch { expected: Kind::Integer, found: value.kind() }),
        }
    }
}

impl Decode for ValueNode {
    /// A free-form value takes any node as it is.
    open spec fn decoded(node: Node) -> Result<Node, Fault> {
        Ok(node)
    }

    fn decode(value: &ValueNode) -> (r: Result<Self, DecodeError>) {
        Ok(value.duplicate())
    }
}

/// What decoding the value under `key` gives where the key may be absent:
/// nothing for an absent key, and for a present one the decoded value or the
/// failure, attributed to the key.
pub open spec fn optional_field<T: Decode>(entries: Entries, key: Seq<char>) -> Result<
    Option<T::V>,
    Fault,
> {
    match lookup(entries, key) {
        None => Ok(None),
        Some(node) => match T::decoded(node) {
            Ok(x) => Ok(Some(x)),
            Err(e) => Err(Fault::Entry { key, cause: Box::new(e) }),
        },
    }
}

/// What decoding the value under `key` gives where the shape `shape` requires the key.
pub open spec fn required_field<T: Decode>(
    entries: Entries,
    key: Seq<char>,
    shape: Seq<char>,
) -> Result<T::V, Fault> {
    match lookup(entries, key) {
        None => Err(Fault::MissingField { field: key, shape }),
        Some(node) => match T::decoded(node) {
            Ok(x) => Ok(x),
            Err(e) => Err(Fault::Entry { key, cause: Box::new(e) }),
        },
    }
}

/// Decodes the value under `key`, which may be absent.
pub fn field<T: Decode>(entries: &Vec<(String, ValueNode)>, key: &str) -> (r: Result<
    Option<T>,
    DecodeError,
>)
    ensures
        outcome(r) == optional_field::<T>(entries_model(*entries), key@),
{
    match find(entries, key) {
        None => Ok(None),
        Some(v) => match T::decode(v) {
            Ok(x) => Ok(Some(x)),
            Err(e) => Err(DecodeError::Entry { key: key.to_owned(), cause: Box::new(e) }),
        },
    }
}

/// Decodes the value under `key`, which the shape named `shape` requires.
pub fn required<T: Decode>(entries: &Vec<(String, ValueNode)>, key: &str, shape: &str) -> (r: Result<
    T,
    DecodeError,
>)
    ensures
        outcome(r) == required_field::<T>(entries_model(*entries), key@, shape@),
{
    match find(entries, key) {
        None => Err(DecodeError::MissingField { field: key.to_owned(), shape: shape.to_owned() }),
        Some(v) => match T::decode(v) {
            Ok(x) => Ok(x),
            Err(e) => Err(DecodeError::Entry { key: key.to_owned(), cause: Box::new(e) }),
        },
    }
}

/// Adds a failed attempt to the list that a variant resolver keeps.
pub fn record(attempted: &mut Vec<(String, DecodeError)>, variant: &str, reason: DecodeError)
    ensures
        attempts_model(*final(attempted)) == attempts_model(
            *old(attempted),
        ).push((variant@, reason.model())),
{
    attempted.push((variant.to_owned(), reason));
    assert(attempts_model(*attempted) =~= attempts_model(
        *old(attempted),
    ).push((variant@, reason.model())));
}


/// A list of failed attempts that is still empty.
pub fn no_attempts() -> (attempted: Vec<(String, DecodeError)>)
    ensures
        attempts_model(attempted) == Seq::<(Seq<char>, Fault)>::empty(),
{
    let attempted: Vec<(String, DecodeError)> = Vec::new();
    assert(attempts_model(attempted) =~= Seq::<(Seq<char>, Fault)>::empty());
    attempted
}

/// What matching a node against a variant without fields gives: the variant
/// matches the string that names it and nothing else.
pub open spec fn named_unit(node: Node, name: Seq<char>) -> Result<(), Fault> {
    match node {
        Node::String(s) => if s == name {
            Ok(())
        } else {
            Err(Fault::UnknownVariant { name: s })
        },
        _ => Err(mismatch(Kind::String, node)),
    }
}

/// Matches a node against a variant without fields, named `name`.
pub fn unit_named(value: &ValueNode, name: &str) -> (r: Result<(), DecodeError>)
    ensures
        outcome(r) == named_unit(value.model(), name@),
{
    let s = text_of(value)?;
    if same_text(s, name) {
        Ok(())
    } else {
        Err(DecodeError::UnknownVariant { name: s.clone() })
    }
}

/// The texts of a list of names.
pub open spec fn names(declared: Seq<&'static str>) -> Seq<Seq<char>> {
    Seq::new(declared.len(), |i: int| declared[i]@)
}

/// The first key of a table, from position `from` on, that is not among `declared`.
pub open spec fn first_undeclared(entries: Entries, declared: Seq<Seq<char>>, from: int) -> Option<
    Seq<char>,
>
    decreases entries.len() - from,
{
    if from < 0 || from >= entries.len() {
        None
    } else if !declared.contains(entries[from].0) {
        Some(entries[from].0)
    } else {
        first_undeclared(entries, declared, from + 1)
    }
}

/// Whether `key` is one of `declared`.
pub fn is_declared(key: &String, declared: &Vec<&'static str>) -> (known: bool)
    ensures
        known == names(declared@).contains(key@),
{
    let mut j: usize = 0;
    while j < declared.len()
        invariant
            j <= declared.len(),
            forall|k: int| 0 <= k < j ==> names(declared@)[k] != key@,
        decreases declared.len() - j,
    {
        if same_text(key, declared[j]) {
            assert(names(declared@)[j as int] == key@);
            return true;
        }
        j += 1;
    }
    false
}

/// Finds the first key of a table that a closed shape does not declare.
pub fn first_undeclared_key<'a>(
    entries: &'a Vec<(String, ValueNode)>,
    declared: &Vec<&'static str>,
) -> (r: Option<&'a String>)
    ensures
        match r {
            Some(key) => first_undeclared(entries_model(*entries), names(declared@), 0) == Some(
                key@,
            ),
            None => first_undeclared(entries_model(*entries), names(declared@), 0) is None,
        },
{
    let mut i: usize = 0;
    while i < entries.len()
        invariant
            i <= entries.len(),
            first_undeclared(entries_model(*entries), names(declared@), 0) == first_undeclared(
                entries_model(*entries),
                names(declared@),
                i as int,
            ),
        decreases entries.len() - i,
    {
        if !is_declared(&entries[i].0, declared) {
            return Some(&entries[i].0);
        }
        i += 1;
    }
    None
}

} // verus!
