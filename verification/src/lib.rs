//! Typed, validated models of `Cargo.toml` manifests and `Cargo.lock` lockfiles.
//!
//! A text is read into a tree of document nodes ([`value::ValueNode`]), and the
//! tree is decoded into a typed model ([`CargoToml`], [`CargoLock`]). What
//! decoding gives is stated once, over mathematical models, by
//! [`decode::Decode::decoded`]; every decoder is proved to compute exactly that.

pub mod decode;
pub mod dependency;
pub mod document;
pub mod error;
pub mod laws;
pub mod lints;
pub mod lockfile;
pub mod manifest;
pub mod mapping;
pub mod message;
pub mod package;
pub mod profile;
pub mod sequence;
pub mod target;
pub mod value;
pub mod workspace;

pub use decode::Decode;
pub use dependency::{Dependency, DependencyDetail, TargetSpec, WorkspaceDependency};
pub use error::{DecodeError, Error, IntTarget, IoError};
pub use lints::{Badge, LintConfig, LintLevel, LintLevelString, Lints};
pub use lockfile::{CargoLock, LockPackage, CRATES_IO_SOURCE};
pub use manifest::CargoToml;
pub use mapping::Mapping;
pub use package::{
    BoolOrVec, Edition, EditionOrWorkspace, Package, Resolver, StringOrBool, StringOrWorkspace,
    VecOrWorkspace, WorkspaceRef,
};
pub use profile::{
    BuildOverride, DebugLevel, Lto, OptLevel, PackageProfile, PanicStrategy, Profile, StripLevel,
};
pub use target::{BenchTarget, BinTarget, ExampleTarget, LibTarget, TestTarget};
pub use value::{Kind, Timestamp, TimestampForm, ValueNode};
pub use workspace::{Workspace, WorkspacePackage};
