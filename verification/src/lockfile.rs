//! The lockfile: its format version and its package records.

use vstd::prelude::*;
use crate::decode::{
    field, mismatch, optional_field, required, required_field, same_text, table_of, Decode,
};
use crate::document::{parse_as, parsed};
use crate::error::{DecodeError, Error, ErrorModel, Fault};
use crate::value::{Kind, Node, ValueNode};

verus! {

/// The crates.io registry source string in Cargo.lock.
pub const CRATES_IO_SOURCE: &'static str = "registry+https://github.com/rust-lang/crates.io-index";

/// The format version of a lockfile that states none.
pub const DEFAULT_LOCK_VERSION: u32 = 3;

/// A package entry from a `Cargo.lock` file.
#[derive(Clone, Debug)]
pub struct LockPackage {
    /// Package name.
    pub name: String,
    /// Version string.
    pub version: String,
    /// Source URL (None for path dependencies).
    pub source: Option<String>,
    /// SHA256 checksum (for registry packages).
    pub checksum: Option<String>,
    /// Dependencies as "name" or "name version" or "name version (source)".
    pub dependencies: Vec<String>,
}

/// The mathematical model of a [`LockPackage`].
pub struct LockPackageModel {
    pub name: Seq<char>,
    pub version: Seq<char>,
    pub source: Option<Seq<char>>,
    pub checksum: Option<Seq<char>>,
    pub dependencies: Seq<Seq<char>>,
}

impl DeepView for LockPackage {
    type V = LockPackageModel;

    open spec fn deep_view(&self) -> LockPackageModel {
        LockPackageModel {
            name: self.name.deep_view(),
            version: self.version.deep_view(),
            source: self.source.deep_view(),
            checksum: self.checksum.deep_view(),
            dependencies: self.dependencies.deep_view(),
        }
    }
}

impl LockPackageModel {
    /// Whether the package comes from the crates.io registry.
    pub open spec fn is_registry(self) -> bool {
        self.source == Some(CRATES_IO_SOURCE@)
    }

    /// Whether the package is a path dependency: one without a source.
    pub open spec fn is_path(self) -> bool {
        self.source is None
    }
}

impl Decode for LockPackage {
    /// A package record requires a name and a version; a record that lists no
    /// dependencies has none.
    open spec fn decoded(node: Node) -> Result<LockPackageModel, Fault> {
        match node {
            Node::Table(t) => {
                let name = required_field::<String>(t, "name"@, "LockPackage"@);
                let version = required_field::<String>(t, "version"@, "LockPackage"@);
                let source = optional_field::<String>(t, "source"@);
                let checksum = optional_field::<String>(t, "checksum"@);
                let dependencies = optional_field::<Vec<String>>(t, "dependencies"@);
                if name is Err {
                    Err(name->Err_0)
                } else if version is Err {
                    Err(version->Err_0)
                } else if source is Err {
                    Err(source->Err_0)
                } else if checksum is Err {
                    Err(checksum->Err_0)
                } else if dependencies is Err {
                    Err(dependencies->Err_0)
                } else {
                    Ok(
                        LockPackageModel {
                            name: name->Ok_0,
                            version: version->Ok_0,
                            source: source->Ok_0,
                            checksum: checksum->Ok_0,
                            dependencies: match dependencies->Ok_0 {
                                Some(list) => list,
                                None => Seq::empty(),
                            },
                        },
                    )
                }
            },
            _ => Err(mismatch(Kind::Table, node)),
        }
    }

    fn decode(value: &ValueNode) -> (r: Result<Self, DecodeError>) {
        let t = table_of(value)?;
        let name = required::<String>(t, "name", "LockPackage")?;
        let version = required::<String>(t, "version", "LockPackage")?;
        let source = field::<String>(t, "source")?;
        let checksum = field::<String>(t, "checksum")?;
        let dependencies = match field::<Vec<String>>(t, "dependencies")? {
            Some(list) => list,
            None => {
                let none: Vec<String> = Vec::new();
                assert(none.deep_view() =~= Seq::<Seq<char>>::empty());
                none
            },
        };
        Ok(LockPackage { name, version, source, checksum, dependencies })
    }
}

impl LockPackage {
    /// Returns true if this is a crates.io registry package.
    pub fn is_registry(&self) -> (registry: bool)
        ensures
            registry == self.deep_view().is_registry(),
    {
        match &self.source {
            Some(source) => same_text(source, CRATES_IO_SOURCE),
            None => false,
        }
    }

    /// Returns true if this is a path dependency.
    pub fn is_path(&self) -> (path: bool)
        ensures
            path == self.deep_view().is_path(),
    {
        self.source.is_none()
    }
}

/// A parsed `Cargo.lock` file.
///
/// Supports lockfile format versions 3 and 4.
#[derive(Debug)]
pub struct CargoLock {
    /// Lockfile format version (3 or 4).
    pub version: u32,
    /// All packages in the lockfile.
    pub packages: Vec<LockPackage>,
}

/// The mathematical model of a [`CargoLock`].
pub struct CargoLockModel {
    pub version: u32,
    pub packages: Seq<LockPackageModel>,
}

impl DeepView for CargoLock {
    type V = CargoLockModel;

    open spec fn deep_view(&self) -> CargoLockModel {
        CargoLockModel { version: self.version, packages: self.packages.deep_view() }
    }
}

impl Decode for CargoLock {
    /// A lockfile that states no version is of version 3; one that lists no
    /// package has none.
    open spec fn decoded(node: Node) -> Result<CargoLockModel, Fault> {
        match node {
            Node::Table(t) => {
                let version = optional_field::<u32>(t, "version"@);
                let package = optional_field::<Vec<LockPackage>>(t, "package"@);
                if version is Err {
                    Err(version->Err_0)
                } else if package is Err {
                    Err(package->Err_0)
                } else {
                    Ok(
                        CargoLockModel {
                            version: match version->Ok_0 {
                                Some(stated) => stated,
                                None => DEFAULT_LOCK_VERSION,
                            },
                            packages: match package->Ok_0 {
                                Some(list) => list,
                                None => Seq::empty(),
                            },
                        },
                    )
                }
            },
            _ => Err(mismatch(Kind::Table, node)),
        }
    }

    fn decode(value: &ValueNode) -> (r: Result<Self, DecodeError>) {
        let t = table_of(value)?;
        let version = match field::<u32>(t, "version")? {
            Some(stated) => stated,
            None => DEFAULT_LOCK_VERSION,
        };
        let packages = match field::<Vec<LockPackage>>(t, "package")? {
            Some(list) => list,
            None => {
                let none: Vec<LockPackage> = Vec::new();
                assert(none.deep_view() =~= Seq::<LockPackageModel>::empty());
                none
            },
        };
        Ok(CargoLock { version, packages })
    }
}

/// The position of the first package, from position `from` on, that has the
/// name `name` and, where `version` is given, that version.
pub open spec fn position_from(
    packages: Seq<LockPackageModel>,
    name: Seq<char>,
    version: Option<Seq<char>>,
    from: int,
) -> Option<int>
    decreases packages.len() - from,
{
    if from < 0 || from >= packages.len() {
        None
    } else if packages[from].name == name && (version is None || version == Some(
        packages[from].version,
    )) {
        Some(from)
    } else {
        position_from(packages, name, version, from + 1)
    }
}

impl CargoLock {
    /// Parse `Cargo.lock` content from a string.
    pub fn parse(contents: &str) -> (r: Result<CargoLock, Error>)
        ensures
            match r {
                Ok(lock) => parsed::<CargoLock>(contents@) == Ok::<CargoLockModel, ErrorModel>(
                    lock.deep_view(),
                ),
                Err(e) => parsed::<CargoLock>(contents@) == Err::<CargoLockModel, ErrorModel>(
                    e.model(),
                ),
            },
    {
        parse_as::<CargoLock>(contents)
    }

    /// Find a package by name: the first of that name.
    pub fn find_by_name(&self, name: &str) -> (found: Option<&LockPackage>)
        ensures
            match found {
                Some(p) => position_from(self.deep_view().packages, name@, None, 0) matches Some(i)
                    && *p == self.packages[i],
                None => position_from(self.deep_view().packages, name@, None, 0) is None,
            },
    {
        let mut i: usize = 0;
        while i < self.packages.len()
            invariant
                i <= self.packages.len(),
                position_from(self.deep_view().packages, name@, None, 0) == position_from(
                    self.deep_view().packages,
                    name@,
                    None,
                    i as int,
                ),
            decreases self.packages.len() - i,
        {
            if same_text(&self.packages[i].name, name) {
                return Some(&self.packages[i]);
            }
            i += 1;
        }
        None
    }

    /// Find a package by name and version: the first with both.
    pub fn find_by_name_version(&self, name: &str, version: &str) -> (found: Option<&LockPackage>)
        ensures
            match found {
                Some(p) => position_from(self.deep_view().packages, name@, Some(version@), 0)
                    matches Some(i) && *p == self.packages[i],
                None => position_from(self.deep_view().packages, name@, Some(version@), 0) is None,
            },
    {
        let mut i: usize = 0;
        while i < self.packages.len()
            invariant
                i <= self.packages.len(),
                position_from(self.deep_view().packages, name@, Some(version@), 0)
                    == position_from(
                    self.deep_view().packages,
                    name@,
                    Some(version@),
                    i as int,
                ),
            decreases self.packages.len() - i,
        {
            if same_text(&self.packages[i].name, name) && same_text(
                &self.packages[i].version,
                version,
            ) {
                return Some(&self.packages[i]);
            }
            i += 1;
        }
        None
    }
}

} // verus!
