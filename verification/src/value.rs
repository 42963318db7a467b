//! The generic document tree that the decoders consume.

use vstd::prelude::*;

verus! {

/// The kind of a document node, as reported in type mismatches.
#[derive(Clone, Copy, Debug, PartialEq, Eq, Structural)]
pub enum Kind {
    Table,
    Array,
    String,
    Integer,
    Float,
    Boolean,
    DateTime,
}

/// Which parts a timestamp has.
#[derive(Clone, Copy, Debug, PartialEq, Eq, Structural)]
pub enum TimestampForm {
    /// A date and a time with an offset from UTC, in minutes.
    Offset { offset_minutes: i16 },
    /// A date and a time, without an offset.
    LocalDateTime,
    /// A date alone.
    LocalDate,
    /// A time alone.
    LocalTime,
}

/// A timestamp, held by its parts as the document gave them. The parts that
/// the form lacks are zero; no part is checked against a calendar.
#[derive(Clone, Copy, Debug, PartialEq, Eq, Structural)]
pub struct Timestamp {
    pub form: TimestampForm,
    pub year: i32,
    pub month: u8,
    pub day: u8,
    pub hour: u8,
    pub minute: u8,
    pub second: u8,
    pub nanos: u32,
}

/// One node of a parsed document.
///
/// A table keeps its entries in the order of the document. A float is held by
/// its IEEE-754 bit pattern and a timestamp by its parts; no decoder reads
/// either of them.
#[derive(Debug)]
pub enum ValueNode {
    Table(Vec<(String, ValueNode)>),
    Array(Vec<ValueNode>),
    String(String),
    Integer(i64),
    Float(u64),
    Boolean(bool),
    DateTime(Timestamp),
}

/// The mathematical model of a [`ValueNode`].
pub enum Node {
    Table(Seq<(Seq<char>, Node)>),
    Array(Seq<Node>),
    String(Seq<char>),
    Integer(i64),
    Float(u64),
    Boolean(bool),
    DateTime(Timestamp),
}

/// The entries of a table, in document order.
pub type Entries = Seq<(Seq<char>, Node)>;

/// The model of a table's entries.
pub open spec fn entries_model(entries: Vec<(String, ValueNode)>) -> Entries
    decreases entries,
{
    Seq::new(
        entries.len() as nat,
        |i: int|
            if 0 <= i < entries.len() {
                (entries[i].0@, entries[i].1.model())
            } else {
                (Seq::empty(), Node::Boolean(false))
            },
    )
}

/// The model of an array's items.
pub open spec fn items_model(items: Vec<ValueNode>) -> Seq<Node>
    decreases items,
{
    Seq::new(
        items.len() as nat,
        |i: int|
            if 0 <= i < items.len() {
                items[i].model()
            } else {
                Node::Boolean(false)
            },
    )
}

impl ValueNode {
    /// The model of this node.
    pub open spec fn model(self) -> Node
        decreases self,
    {
        match self {
            ValueNode::Table(entries) => Node::Table(entries_model(entries)),
            ValueNode::Array(items) => Node::Array(items_model(items)),
            ValueNode::String(s) => Node::String(s@),
            ValueNode::Integer(i) => Node::Integer(i),
            ValueNode::Float(bits) => Node::Float(bits),
            ValueNode::Boolean(b) => Node::Boolean(b),
            ValueNode::DateTime(stamp) => Node::DateTime(stamp),
        }
    }

    /// A copy of this node and of all that is below it.
    #[verifier::loop_isolation(false)]
    pub fn duplicate(&self) -> (copy: ValueNode)
        ensures
            copy.model() == self.model(),
        decreases self,
    {
        match self {
            ValueNode::Table(entries) => {
                let mut out: Vec<(String, ValueNode)> = Vec::new();
                let mut i: usize = 0;
                while i < entries.len()
                    invariant
                        i <= entries.len(),
                        out.len() == i,
                        forall|j: int|
                            0 <= j < i ==> out[j].0@ == entries[j].0@ && out[j].1.model()
                                == entries[j].1.model(),
                    decreases entries.len() - i,
                {
                    proof {
                        vstd::std_specs::vec::axiom_vec_index_decreases(*entries, i as int);
                    }
                    let key = entries[i].0.clone();
                    let below = entries[i].1.duplicate();
                    out.push((key, below));
                    i += 1;
                }
                assert(entries_model(out) =~= entries_model(*entries));
                ValueNode::Table(out)
            },
            ValueNode::Array(items) => {
                let mut out: Vec<ValueNode> = Vec::new();
                let mut i: usize = 0;
                while i < items.len()
                    invariant
                        i <= items.len(),
                        out.len() == i,
                        forall|j: int| 0 <= j < i ==> out[j].model() == items[j].model(),
                    decreases items.len() - i,
                {
                    proof {
                        vstd::std_specs::vec::axiom_vec_index_decreases(*items, i as int);
                    }
                    let below = items[i].duplicate();
                    out.push(below);
                    i += 1;
                }
                assert(items_model(out) =~= items_model(*items));
                ValueNode::Array(out)
            },
            ValueNode::String(s) => ValueNode::String(s.clone()),
            ValueNode::Integer(i) => ValueNode::Integer(*i),
            ValueNode::Float(bits) => ValueNode::Float(*bits),
            ValueNode::Boolean(b) => ValueNode::Boolean(*b),
            ValueNode::DateTime(stamp) => ValueNode::DateTime(*stamp),
        }
    }

    /// The kind of this node.
    pub fn kind(&self) -> (k: Kind)
        ensures
            k == self.model().kind(),
    {
        match self {
            ValueNode::Table(_) => Kind::Table,
            ValueNode::Array(_) => Kind::Array,
            ValueNode::String(_) => Kind::String,
            ValueNode::Integer(_) => Kind::Integer,
            ValueNode::Float(_) => Kind::Float,
            ValueNode::Boolean(_) => Kind::Boolean,
            ValueNode::DateTime(_) => Kind::DateTime,
        }
    }
}

impl Clone for ValueNode {
    fn clone(&self) -> (copy: Self)
        ensures
            copy.model() == self.model(),
    {
        self.duplicate()
    }
}

impl DeepView for ValueNode {
    type V = Node;

    open spec fn deep_view(&self) -> Node {
        self.model()
    }
}

impl Node {
    /// The kind of this node.
    pub open spec fn kind(self) -> Kind {
        match self {
            Node::Table(_) => Kind::Table,
            Node::Array(_) => Kind::Array,
            Node::String(_) => Kind::String,
            Node::Integer(_) => Kind::Integer,
            Node::Float(_) => Kind::Float,
            Node::Boolean(_) => Kind::Boolean,
            Node::DateTime(_) => Kind::DateTime,
        }
    }
}

} // verus!
