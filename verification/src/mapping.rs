//! Decoding a table into a mapping from names to values of one type.

use vstd::prelude::*;
use crate::decode::{find_from, lookup, mismatch, same_text, Decode};
use crate::error::{DecodeError, Fault};
use crate::value::{entries_model, Entries, Kind, Node, ValueNode};

verus! {

/// A mapping from names to values, in the order of the document.
///
/// Decoded from a table, it holds one entry for each entry of the table, under
/// the same key; where the table's keys are distinct, so are the mapping's.
#[derive(Clone, Debug)]
pub struct Mapping<T> {
    pub entries: Vec<(String, T)>,
}

impl<T: DeepView> DeepView for Mapping<T> {
    type V = Seq<(Seq<char>, T::V)>;

    open spec fn deep_view(&self) -> Seq<(Seq<char>, T::V)> {
        self.entries.deep_view()
    }
}

impl<T: DeepView> Mapping<T> {
    /// The number of entries.
    pub fn len(&self) -> (n: usize)
        ensures
            n == self.deep_view().len(),
    {
        self.entries.len()
    }

    /// Whether the mapping has no entry.
    pub fn is_empty(&self) -> (empty: bool)
        ensures
            empty == (self.deep_view().len() == 0),
    {
        self.entries.len() == 0
    }

    /// The value under `key`: that of the first entry with this key.
    pub fn get(&self, key: &str) -> (found: Option<&T>)
        ensures
            match found {
                Some(x) => lookup(self.deep_view(), key@) == Some(x.deep_view()),
                None => lookup(self.deep_view(), key@) is None,
            },
    {
        let mut i: usize = 0;
        while i < self.entries.len()
            invariant
                i <= self.entries.len(),
                lookup(self.deep_view(), key@) == find_from(self.deep_view(), key@, i as int),
            decreases self.entries.len() - i,
        {
            if same_text(&self.entries[i].0, key) {
                return Some(&self.entries[i].1);
            }
            i += 1;
        }
        None
    }
}

/// What decoding each value of a table gives: the entries in order, each under
/// its key, or the failure of the first value that fails, with its key.
pub open spec fn decoded_entries<T: Decode>(entries: Entries) -> Result<
    Seq<(Seq<char>, T::V)>,
    Fault,
>
    decreases entries.len(),
{
    if entries.len() == 0 {
        Ok(Seq::empty())
    } else {
        match decoded_entries::<T>(entries.drop_last()) {
            Err(e) => Err(e),
            Ok(prefix) => match T::decoded(entries.last().1) {
                Err(e) => Err(Fault::Entry { key: entries.last().0, cause: Box::new(e) }),
                Ok(x) => Ok(prefix.push((entries.last().0, x))),
            },
        }
    }
}

/// A failure among the first `k` entries is the failure of the whole table.
pub proof fn lemma_entries_failure_stays<T: Decode>(entries: Entries, k: int)
    requires
        0 <= k <= entries.len(),
        decoded_entries::<T>(entries.take(k)) is Err,
    ensures
        decoded_entries::<T>(entries) == decoded_entries::<T>(entries.take(k)),
    decreases entries.len() - k,
{
    if k == entries.len() {
        assert(entries.take(k) =~= entries);
    } else {
        assert(entries.take(k + 1).drop_last() =~= entries.take(k));
        lemma_entries_failure_stays::<T>(entries, k + 1);
    }
}

/// A decoded mapping has the table's keys, in the table's order.
pub proof fn lemma_entries_keep_keys<T: Decode>(entries: Entries)
    ensures
        decoded_entries::<T>(entries) matches Ok(out) ==> out.len() == entries.len()
            && forall|i: int|
            0 <= i < entries.len() ==> (#[trigger] out[i]).0 == entries[i].0 && T::decoded(
                entries[i].1,
            ) == Ok::<T::V, Fault>(out[i].1),
    decreases entries.len(),
{
    if entries.len() > 0 {
        lemma_entries_keep_keys::<T>(entries.drop_last());
    }
}

/// Decoding a table's values succeeds exactly when every value decodes.
pub proof fn lemma_entries_all_or_nothing<T: Decode>(entries: Entries)
    ensures
        decoded_entries::<T>(entries) is Ok <==> forall|i: int|
            0 <= i < entries.len() ==> (#[trigger] T::decoded(entries[i].1)) is Ok,
    decreases entries.len(),
{
    if entries.len() > 0 {
        let front = entries.drop_last();
        lemma_entries_all_or_nothing::<T>(front);
        if decoded_entries::<T>(entries) is Ok {
            assert forall|i: int| 0 <= i < entries.len() implies (#[trigger] T::decoded(
                entries[i].1,
            )) is Ok by {
                if i < front.len() {
                    assert(front[i] == entries[i]);
                }
            }
        }
        if forall|i: int| 0 <= i < entries.len() ==> (#[trigger] T::decoded(entries[i].1)) is Ok {
            assert forall|i: int| 0 <= i < front.len() implies (#[trigger] T::decoded(
                front[i].1,
            )) is Ok by {
                assert(front[i] == entries[i]);
            }
            assert(T::decoded(entries[entries.len() - 1].1) is Ok);
        }
    }
}

/// Whether no key occurs twice.
pub open spec fn distinct_keys<M>(entries: Seq<(Seq<char>, M)>) -> bool {
    forall|i: int, j: int|
        0 <= i < j < entries.len() ==> (#[trigger] entries[i]).0 != (#[trigger] entries[j]).0
}

/// A mapping decoded from a table with distinct keys has distinct keys, and
/// under each key of the table the decoded value of that entry.
pub proof fn lemma_distinct_keys_stay_distinct<T: Decode>(entries: Entries)
    requires
        distinct_keys(entries),
        decoded_entries::<T>(entries) is Ok,
    ensures
        distinct_keys(decoded_entries::<T>(entries)->Ok_0),
{
    lemma_entries_keep_keys::<T>(entries);
    let out = decoded_entries::<T>(entries)->Ok_0;
    assert forall|i: int, j: int| 0 <= i < j < out.len() implies (#[trigger] out[i]).0 != (
    #[trigger] out[j]).0 by {
        assert(out[i].0 == entries[i].0);
        assert(out[j].0 == entries[j].0);
    }
}

impl<T: Decode> Decode for Mapping<T> {
    open spec fn decoded(node: Node) -> Result<Seq<(Seq<char>, T::V)>, Fault> {
        match node {
            Node::Table(entries) => decoded_entries::<T>(entries),
            _ => Err(mismatch(Kind::Table, node)),
        }
    }

    fn decode(value: &ValueNode) -> (r: Result<Self, DecodeError>) {
        match value {
            ValueNode::Table(entries) => {
                let ghost nodes = entries_model(*entries);
                let mut out: Vec<(String, T)> = Vec::new();
                let mut i: usize = 0;
                assert(nodes.take(0) =~= Seq::empty());
                assert(out.deep_view() =~= Seq::empty());
                while i < entries.len()
                    invariant
                        i <= entries.len(),
                        nodes == entries_model(*entries),
                        value.model() == Node::Table(nodes),
                        decoded_entries::<T>(nodes.take(i as int)) == Ok::<
                            Seq<(Seq<char>, T::V)>,
                            Fault,
                        >(out.deep_view()),
                    decreases entries.len() - i,
                {
                    let ghost before = out.deep_view();
                    let ghost upto = nodes.take(i + 1);
                    assert(upto.drop_last() =~= nodes.take(i as int));
                    match T::decode(&entries[i].1) {
                        Err(e) => {
                            proof {
                                assert(decoded_entries::<T>(upto) == Err::<
                                    Seq<(Seq<char>, T::V)>,
                                    Fault,
                                >(
                                    Fault::Entry {
                                        key: entries[i as int].0@,
                                        cause: Box::new(e.model()),
                                    },
                                ));
                                lemma_entries_failure_stays::<T>(nodes, i + 1);
                            }
                            return Err(
                                DecodeError::Entry {
                                    key: entries[i].0.clone(),
                                    cause: Box::new(e),
                                },
                            );
                        },
                        Ok(x) => {
                            let key = entries[i].0.clone();
                            out.push((key, x));
                            assert(out.deep_view() =~= before.push((key@, x.deep_view())));
                        },
                    }
                    i += 1;
                }
                assert(nodes.take(i as int) =~= nodes);
                Ok(Mapping { entries: out })
            },
            _ => Err(DecodeError::TypeMismatch { expected: Kind::Table, found: value.kind() }),
        }
    }
}

} // verus!
