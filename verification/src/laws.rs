//! What holds of the decoders on every input.

use vstd::prelude::*;
use crate::decode::{
    coerced_i32, coerced_u8, find_from, lookup, optional_field, required_field, Decode,
};
use crate::dependency::{Dependency, DependencyDetail, DependencyModel, WorkspaceDependency};
use crate::document::{document, parsed};
use crate::error::{ErrorModel, Fault, IntTarget};
use crate::lockfile::{CargoLock, LockPackage, DEFAULT_LOCK_VERSION};
use crate::manifest::CargoToml;
use crate::mapping::lemma_entries_all_or_nothing;
use crate::package::{
    EditionOrWorkspace, EditionOrWorkspaceModel, StringOrWorkspace, StringOrWorkspaceModel,
    VecOrWorkspace, VecOrWorkspaceModel, WorkspaceRef,
};
use crate::profile::{OptLevel, OptLevelModel, Profile};
use crate::sequence::lemma_items_all_or_nothing;
use crate::value::{Entries, Node, ValueNode};

verus! {

/// Decoding depends on the node alone: two trees with the same model decode
/// to the same value, or fail with the same failure.
pub proof fn lemma_decoding_is_a_function<T: Decode>(a: ValueNode, b: ValueNode)
    requires
        a.model() == b.model(),
    ensures
        T::decoded(a.model()) == T::decoded(b.model()),
{
}

/// An integer narrows to 8 unsigned bits exactly when it lies in 0..=255, to
/// 32 signed bits exactly when it lies in -2^31..2^31, and the value is kept.
pub proof fn lemma_narrowing_is_range_checked(value: i64)
    ensures
        coerced_u8(value) is Ok <==> 0 <= value <= 255,
        coerced_u8(value) matches Ok(n) ==> n == value,
        coerced_i32(value) is Ok <==> -0x8000_0000 <= value <= 0x7fff_ffff,
        coerced_i32(value) matches Ok(n) ==> n == value,
{
}

/// An integer is an optimization level exactly when it lies in 0..=255. It
/// is then the level of that number; any other integer is refused, with the
/// range failure recorded for the number variant, and never wrapped.
pub proof fn lemma_opt_level_is_range_checked(value: i64)
    ensures
        0 <= value <= 255 ==> OptLevel::decoded(Node::Integer(value)) == Ok::<OptLevelModel, Fault>(
            OptLevelModel::Number(value as u8),
        ),
        !(0 <= value <= 255) ==> (OptLevel::decoded(Node::Integer(value)) matches Err(
            Fault::NoMatchingVariant { attempted },
        ) && attempted.len() == 2 && attempted[0] == (
            "Number"@,
            Fault::IntegerOutOfRange { value, target: IntTarget::U8 },
        )),
{
}

/// A profile whose `opt-level` is an integer outside 0..=255 is refused.
pub proof fn lemma_profile_refuses_a_level_out_of_range(profile: Node, value: i64)
    requires
        profile matches Node::Table(p) && lookup(p, "opt-level"@) == Some(Node::Integer(value)),
        !(0 <= value <= 255),
    ensures
        Profile::decoded(profile) is Err,
{
    lemma_opt_level_is_range_checked(value);
}

/// A manifest is refused as a whole where one of its profiles, whichever,
/// has an `opt-level` that is an integer outside 0..=255.
pub proof fn lemma_manifest_refuses_a_level_out_of_range(
    manifest: Node,
    profiles: Entries,
    i: int,
    value: i64,
)
    requires
        manifest matches Node::Table(t) && lookup(t, "profile"@) == Some(Node::Table(profiles)),
        0 <= i < profiles.len(),
        profiles[i].1 matches Node::Table(p) && lookup(p, "opt-level"@) == Some(
            Node::Integer(value),
        ),
        !(0 <= value <= 255),
    ensures
        CargoToml::decoded(manifest) is Err,
{
    lemma_profile_refuses_a_level_out_of_range(profiles[i].1, value);
    lemma_entries_all_or_nothing::<Profile>(profiles);
}

/// A text whose document has such a profile parses to a parse error: never
/// to a manifest, and never to the error of a failed read.
pub proof fn lemma_parse_refuses_a_level_out_of_range(
    text: Seq<char>,
    manifest: Node,
    profiles: Entries,
    i: int,
    value: i64,
)
    requires
        document(text) == Ok::<Node, ErrorModel>(manifest),
        manifest matches Node::Table(t) && lookup(t, "profile"@) == Some(Node::Table(profiles)),
        0 <= i < profiles.len(),
        profiles[i].1 matches Node::Table(p) && lookup(p, "opt-level"@) == Some(
            Node::Integer(value),
        ),
        !(0 <= value <= 255),
    ensures
        parsed::<CargoToml>(text) matches Err(ErrorModel::Parse { .. }),
{
    lemma_manifest_refuses_a_level_out_of_range(manifest, profiles, i, value);
}

/// Reading a text never gives the error of a failed file read: whatever
/// fails, fails as a parse error.
pub proof fn lemma_parsing_fails_as_a_parse_error<T: Decode>(text: Seq<char>)
    ensures
        parsed::<T>(text) is Err ==> parsed::<T>(text)->Err_0 is Parse,
{
}

/// A key that is present is never read as absent: an optional field is
/// nothing exactly when the table lacks its key, whatever lies under a key
/// that is there (an empty table too).
pub proof fn lemma_present_is_not_absent<T: Decode>(entries: Entries, key: Seq<char>)
    ensures
        optional_field::<T>(entries, key) == Ok::<Option<T::V>, Fault>(None) <==> lookup(
            entries,
            key,
        ) is None,
{
}

/// An entry added at the end of a table under another key leaves what is
/// found under `key`, from any position on, as it was.
pub proof fn lemma_lookup_ignores_other_keys<M>(
    entries: Seq<(Seq<char>, M)>,
    key: Seq<char>,
    other: Seq<char>,
    value: M,
    from: int,
)
    requires
        other != key,
        0 <= from <= entries.len(),
    ensures
        find_from(entries.push((other, value)), key, from) == find_from(entries, key, from),
    decreases entries.len() - from,
{
    let longer = entries.push((other, value));
    if from < entries.len() {
        assert(longer[from] == entries[from]);
        lemma_lookup_ignores_other_keys(entries, key, other, value, from + 1);
    } else {
        assert(longer[from] == (other, value));
        assert(find_from(longer, key, from + 1) is None);
    }
}

/// A key that a shape does not name is ignored: an entry added under
/// another key changes no field, optional or required.
pub proof fn lemma_fields_ignore_other_keys<T: Decode>(
    entries: Entries,
    key: Seq<char>,
    shape: Seq<char>,
    other: Seq<char>,
    value: Node,
)
    requires
        other != key,
    ensures
        optional_field::<T>(entries.push((other, value)), key) == optional_field::<T>(entries, key),
        required_field::<T>(entries.push((other, value)), key, shape) == required_field::<T>(
            entries,
            key,
            shape,
        ),
{
    lemma_lookup_ignores_other_keys(entries, key, other, value, 0);
}

/// A table that decodes as a workspace dependency resolves to that variant,
/// though the detailed variant would take the table too.
pub proof fn lemma_marker_before_detailed(node: Node)
    requires
        WorkspaceDependency::decoded(node) is Ok,
    ensures
        Dependency::decoded(node) == Ok::<DependencyModel, Fault>(
            DependencyModel::Workspace(WorkspaceDependency::decoded(node)->Ok_0),
        ),
{
}

/// A table without the key `workspace` never resolves to the workspace
/// variant: it resolves to the detailed one, or to none.
pub proof fn lemma_no_marker_no_inheritance(node: Node)
    requires
        node matches Node::Table(t) && lookup(t, "workspace"@) is None,
    ensures
        match Dependency::decoded(node) {
            Ok(d) => d == DependencyModel::Detailed(DependencyDetail::decoded(node)->Ok_0)
                && DependencyDetail::decoded(node) is Ok,
            Err(e) => e is NoMatchingVariant,
        },
{
}

/// An inheritance marker is never misread as a direct value: whatever
/// decodes as the marker resolves to the workspace variant of each
/// value-or-inherited union.
pub proof fn lemma_inheritance_is_never_misread(node: Node)
    requires
        WorkspaceRef::decoded(node) is Ok,
    ensures
        StringOrWorkspace::decoded(node) == Ok::<StringOrWorkspaceModel, Fault>(
            StringOrWorkspaceModel::Workspace(WorkspaceRef::decoded(node)->Ok_0),
        ),
        VecOrWorkspace::decoded(node) == Ok::<VecOrWorkspaceModel, Fault>(
            VecOrWorkspaceModel::Workspace(WorkspaceRef::decoded(node)->Ok_0),
        ),
        EditionOrWorkspace::decoded(node) == Ok::<EditionOrWorkspaceModel, Fault>(
            EditionOrWorkspaceModel::Workspace(WorkspaceRef::decoded(node)->Ok_0),
        ),
{
}

/// A lockfile without the key `version` is of version 3, one with a version
/// has that version, and it has as many packages as its `package` array has
/// items.
pub proof fn lemma_lockfile_defaults(node: Node)
    requires
        CargoLock::decoded(node) is Ok,
    ensures
        node is Table,
        lookup(node->Table_0, "version"@) is None ==> CargoLock::decoded(node)->Ok_0.version
            == DEFAULT_LOCK_VERSION,
        lookup(node->Table_0, "version"@) matches Some(Node::Integer(v))
            ==> CargoLock::decoded(node)->Ok_0.version == v,
        lookup(node->Table_0, "package"@) is None ==> CargoLock::decoded(node)->Ok_0.packages.len()
            == 0,
        lookup(node->Table_0, "package"@) matches Some(Node::Array(items))
            ==> CargoLock::decoded(node)->Ok_0.packages.len() == items.len(),
{
    if let Node::Table(t) = node {
        if let Some(Node::Array(items)) = lookup(t, "package"@) {
            lemma_items_all_or_nothing::<LockPackage>(items);
        }
    }
}

} // verus!
