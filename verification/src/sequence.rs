//! Decoding an array into a list.

use vstd::prelude::*;
use crate::decode::{mismatch, Decode};
use crate::error::{DecodeError, Fault};
use crate::value::{items_model, Kind, Node, ValueNode};

verus! {

/// What decoding each item of an array gives: the decoded items in order, or
/// the failure of the first item that fails, with its index.
pub open spec fn decoded_items<T: Decode>(items: Seq<Node>) -> Result<Seq<T::V>, Fault>
    decreases items.len(),
{
    if items.len() == 0 {
        Ok(Seq::empty())
    } else {
        match decoded_items::<T>(items.drop_last()) {
            Err(e) => Err(e),
            Ok(prefix) => match T::decoded(items.last()) {
                Err(e) => Err(Fault::Element { index: items.len() - 1, cause: Box::new(e) }),
                Ok(x) => Ok(prefix.push(x)),
            },
        }
    }
}

/// A failure among the first `k` items is the failure of the whole array.
pub proof fn lemma_items_failure_stays<T: Decode>(items: Seq<Node>, k: int)
    requires
        0 <= k <= items.len(),
        decoded_items::<T>(items.take(k)) is Err,
    ensures
        decoded_items::<T>(items) == decoded_items::<T>(items.take(k)),
    decreases items.len() - k,
{
    if k == items.len() {
        assert(items.take(k) =~= items);
    } else {
        assert(items.take(k + 1).drop_last() =~= items.take(k));
        lemma_items_failure_stays::<T>(items, k + 1);
    }
}

/// Decoding succeeds exactly when every item decodes, and then keeps the length.
pub proof fn lemma_items_all_or_nothing<T: Decode>(items: Seq<Node>)
    ensures
        decoded_items::<T>(items) is Ok <==> forall|i: int|
            0 <= i < items.len() ==> (#[trigger] T::decoded(items[i])) is Ok,
        decoded_items::<T>(items) matches Ok(out) ==> out.len() == items.len() && forall|i: int|
            0 <= i < items.len() ==> T::decoded(items[i]) == Ok::<T::V, Fault>(#[trigger] out[i]),
    decreases items.len(),
{
    if items.len() > 0 {
        lemma_items_all_or_nothing::<T>(items.drop_last());
        let front = items.drop_last();
        assert forall|i: int| 0 <= i < front.len() implies front[i] == items[i] by {}
        if decoded_items::<T>(items) is Ok {
            assert forall|i: int| 0 <= i < items.len() implies (#[trigger] T::decoded(
                items[i],
            )) is Ok by {
                if i < front.len() {
                    assert(front[i] == items[i]);
                }
            }
        }
        if forall|i: int| 0 <= i < items.len() ==> (#[trigger] T::decoded(items[i])) is Ok {
            assert forall|i: int| 0 <= i < front.len() implies (#[trigger] T::decoded(
                front[i],
            )) is Ok by {
                assert(front[i] == items[i]);
            }
            assert(T::decoded(items[items.len() - 1]) is Ok);
        }
    }
}

impl<T: Decode> Decode for Vec<T> {
    open spec fn decoded(node: Node) -> Result<Seq<T::V>, Fault> {
        match node {
            Node::Array(items) => decoded_items::<T>(items),
            _ => Err(mismatch(Kind::Array, node)),
        }
    }

    fn decode(value: &ValueNode) -> (r: Result<Self, DecodeError>) {
        match value {
            ValueNode::Array(items) => {
                let ghost nodes = items_model(*items);
                let mut out: Vec<T> = Vec::new();
                let mut i: usize = 0;
                assert(nodes.take(0) =~= Seq::empty());
                assert(out.deep_view() =~= Seq::empty());
                while i < items.len()
                    invariant
                        i <= items.len(),
                        nodes == items_model(*items),
                        value.model() == Node::Array(nodes),
                        decoded_items::<T>(nodes.take(i as int)) == Ok::<Seq<T::V>, Fault>(
                            out.deep_view(),
                        ),
                    decreases items.len() - i,
                {
                    let ghost before = out.deep_view();
                    assert(nodes.take(i + 1).drop_last() =~= nodes.take(i as int));
                    match T::decode(&items[i]) {
                        Err(e) => {
                            proof {
                                let upto = nodes.take(i + 1);
                                assert(decoded_items::<T>(upto) == Err::<Seq<T::V>, Fault>(
                                    Fault::Element { index: i as int, cause: Box::new(e.model()) },
                                ));
                                lemma_items_failure_stays::<T>(nodes, i + 1);
                            }
                            return Err(DecodeError::Element { index: i, cause: Box::new(e) });
                        },
                        Ok(x) => {
                            out.push(x);
                            assert(out.deep_view() =~= before.push(x.deep_view()));
                        },
                    }
                    i += 1;
                }
                assert(nodes.take(i as int) =~= nodes);
                Ok(out)
            },
            _ => Err(DecodeError::TypeMismatch { expected: Kind::Array, found: value.kind() }),
        }
    }
}

} // verus!
