//! Dependency specifications.

use vstd::prelude::*;
use crate::decode::{
    Decode, field, first_undeclared, first_undeclared_key, mismatch, names, no_attempts,
    optional_field, record, required, required_field, table_of,
};
use crate::error::{attempts_model, DecodeError, Fault};
use crate::mapping::Mapping;
use crate::value::{entries_model, Kind, Node, ValueNode};

verus! {

/// A dependency specification.
#[derive(Clone, Debug)]
pub enum Dependency {
    /// Simple version string: `aho-corasick = "1.0"`.
    Version(String),
    /// Workspace inheritance: `aho-corasick = { workspace = true }`.
    Workspace(WorkspaceDependency),
    /// Detailed specification: `aho-corasick = { version = "1.0", features = [...] }`.
    Detailed(DependencyDetail),
}

/// The mathematical model of a [`Dependency`].
pub enum DependencyModel {
    Version(Seq<char>),
    Workspace(WorkspaceDependencyModel),
    Detailed(DependencyDetailModel),
}

impl DeepView for Dependency {
    type V = DependencyModel;

    open spec fn deep_view(&self) -> DependencyModel {
        match self {
            Dependency::Version(x) => DependencyModel::Version(x.deep_view()),
            Dependency::Workspace(x) => DependencyModel::Workspace(x.deep_view()),
            Dependency::Detailed(x) => DependencyModel::Detailed(x.deep_view()),
        }
    }
}

impl Decode for Dependency {
    /// The variants are tried in the order of declaration and the first that
    /// decodes the node is taken; where none does, the failure lists each
    /// variant with the reason it failed for.
    open spec fn decoded(node: Node) -> Result<DependencyModel, Fault> {
        let v0 = <String as Decode>::decoded(node);
        let v1 = <WorkspaceDependency as Decode>::decoded(node);
        let v2 = <DependencyDetail as Decode>::decoded(node);
        if v0 is Ok {
            Ok(DependencyModel::Version(v0->Ok_0))
        } else if v1 is Ok {
            Ok(DependencyModel::Workspace(v1->Ok_0))
        } else if v2 is Ok {
            Ok(DependencyModel::Detailed(v2->Ok_0))
        } else {
            Err(
                Fault::NoMatchingVariant {
                    attempted: seq![
                        ("Version"@, v0->Err_0),
                        ("Workspace"@, v1->Err_0),
                        ("Detailed"@, v2->Err_0),
                    ],
                },
            )
        }
    }

    fn decode(value: &ValueNode) -> (r: Result<Self, DecodeError>) {
        let mut attempted = no_attempts();
        match <String as Decode>::decode(value) {
            Ok(x) => {
                return Ok(Dependency::Version(x));
            },
            Err(e) => record(&mut attempted, "Version", e),
        }
        match <WorkspaceDependency as Decode>::decode(value) {
            Ok(x) => {
                return Ok(Dependency::Workspace(x));
            },
            Err(e) => record(&mut attempted, "Workspace", e),
        }
        match <DependencyDetail as Decode>::decode(value) {
            Ok(x) => {
                return Ok(Dependency::Detailed(x));
            },
            Err(e) => record(&mut attempted, "Detailed", e),
        }
        assert(attempts_model(attempted) =~= seq![
            ("Version"@, <String as Decode>::decoded(value.model())->Err_0),
            ("Workspace"@, <WorkspaceDependency as Decode>::decoded(value.model())->Err_0),
            ("Detailed"@, <DependencyDetail as Decode>::decoded(value.model())->Err_0),
        ]);
        Err(DecodeError::NoMatchingVariant { attempted })
    }
}

/// Detailed dependency specification.
#[derive(Clone, Debug)]
pub struct DependencyDetail {
    /// The version requirement string (e.g., `"1.2.3"`, `"^1.2"`, `">=1, <2"`).
    pub version: Option<String>,
    /// A file system path to a local crate directory.
    pub path: Option<String>,
    /// A URL to a Git repository containing the crate source code.
    pub git: Option<String>,
    /// The Git branch to use when fetching a Git dependency.
    pub branch: Option<String>,
    /// A Git tag specifying an exact release or commit.
    pub tag: Option<String>,
    /// A Git revision such as a commit hash or named reference.
    pub rev: Option<String>,
    /// The name of an alternative registry to fetch the dependency from.
    pub registry: Option<String>,
    /// The URL of a registry index to use directly.
    pub registry_index: Option<String>,
    /// The actual crate name on the registry when renaming locally.
    pub package: Option<String>,
    /// A list of crate features to enable for this dependency.
    pub features: Option<Vec<String>>,
    /// Whether to include the dependency's default features.
    pub default_features: Option<bool>,
    /// Whether this dependency is optional (enabled via features).
    pub optional: Option<bool>,
    /// Whether this dependency is part of the crate's public API (unstable).
    pub public: Option<bool>,
    /// Additional metadata for external tools.
    pub metadata: Option<ValueNode>,
}

/// The mathematical model of a [`DependencyDetail`].
pub struct DependencyDetailModel {
    pub version: Option<Seq<char>>,
    pub path: Option<Seq<char>>,
    pub git: Option<Seq<char>>,
    pub branch: Option<Seq<char>>,
    pub tag: Option<Seq<char>>,
    pub rev: Option<Seq<char>>,
    pub registry: Option<Seq<char>>,
    pub registry_index: Option<Seq<char>>,
    pub package: Option<Seq<char>>,
    pub features: Option<Seq<Seq<char>>>,
    pub default_features: Option<bool>,
    pub optional: Option<bool>,
    pub public: Option<bool>,
    pub metadata: Option<Node>,
}

impl DeepView for DependencyDetail {
    type V = DependencyDetailModel;

    open spec fn deep_view(&self) -> DependencyDetailModel {
        DependencyDetailModel {
            version: self.version.deep_view(),
            path: self.path.deep_view(),
            git: self.git.deep_view(),
            branch: self.branch.deep_view(),
            tag: self.tag.deep_view(),
            rev: self.rev.deep_view(),
            registry: self.registry.deep_view(),
            registry_index: self.registry_index.deep_view(),
            package: self.package.deep_view(),
            features: self.features.deep_view(),
            default_features: self.default_features.deep_view(),
            optional: self.optional.deep_view(),
            public: self.public.deep_view(),
            metadata: self.metadata.deep_view(),
        }
    }
}

impl Decode for DependencyDetail {
    /// A table decodes field by field, in the order of declaration; the first
    /// field that fails gives the failure. Keys that no field names are ignored.
    open spec fn decoded(node: Node) -> Result<DependencyDetailModel, Fault> {
        match node {
            Node::Table(t) => {
                let version = optional_field::<String>(t, "version"@);
                let path = optional_field::<String>(t, "path"@);
                let git = optional_field::<String>(t, "git"@);
                let branch = optional_field::<String>(t, "branch"@);
                let tag = optional_field::<String>(t, "tag"@);
                let rev = optional_field::<String>(t, "rev"@);
                let registry = optional_field::<String>(t, "registry"@);
                let registry_index = optional_field::<String>(t, "registry-index"@);
                let package = optional_field::<String>(t, "package"@);
                let features = optional_field::<Vec<String>>(t, "features"@);
                let default_features = optional_field::<bool>(t, "default-features"@);
                let optional = optional_field::<bool>(t, "optional"@);
                let public = optional_field::<bool>(t, "public"@);
                let metadata = optional_field::<ValueNode>(t, "metadata"@);
                if version is Err {
                    Err(version->Err_0)
                } else if path is Err {
                    Err(path->Err_0)
                } else if git is Err {
                    Err(git->Err_0)
                } else if branch is Err {
                    Err(branch->Err_0)
                } else if tag is Err {
                    Err(tag->Err_0)
                } else if rev is Err {
                    Err(rev->Err_0)
                } else if registry is Err {
                    Err(registry->Err_0)
                } else if registry_index is Err {
                    Err(registry_index->Err_0)
                } else if package is Err {
                    Err(package->Err_0)
                } else if features is Err {
                    Err(features->Err_0)
                } else if default_features is Err {
                    Err(default_features->Err_0)
                } else if optional is Err {
                    Err(optional->Err_0)
                } else if public is Err {
                    Err(public->Err_0)
                } else if metadata is Err {
                    Err(metadata->Err_0)
                } else {
                    Ok(DependencyDetailModel {
                        version: version->Ok_0,
                        path: path->Ok_0,
                        git: git->Ok_0,
                        branch: branch->Ok_0,
                        tag: tag->Ok_0,
                        rev: rev->Ok_0,
                        registry: registry->Ok_0,
                        registry_index: registry_index->Ok_0,
                        package: package->Ok_0,
                        features: features->Ok_0,
                        default_features: default_features->Ok_0,
                        optional: optional->Ok_0,
                        public: public->Ok_0,
                        metadata: metadata->Ok_0,
                    })
                }
            },
            _ => Err(mismatch(Kind::Table, node)),
        }
    }

    fn decode(value: &ValueNode) -> (r: Result<Self, DecodeError>) {
        let t = table_of(value)?;
        let version = field::<String>(t, "version")?;
        let path = field::<String>(t, "path")?;
        let git = field::<String>(t, "git")?;
        let branch = field::<String>(t, "branch")?;
        let tag = field::<String>(t, "tag")?;
        let rev = field::<String>(t, "rev")?;
        let registry = field::<String>(t, "registry")?;
        let registry_index = field::<String>(t, "registry-index")?;
        let package = field::<String>(t, "package")?;
        let features = field::<Vec<String>>(t, "features")?;
        let default_features = field::<bool>(t, "default-features")?;
        let optional = field::<bool>(t, "optional")?;
        let public = field::<bool>(t, "public")?;
        let metadata = field::<ValueNode>(t, "metadata")?;
        Ok(
            DependencyDetail {
                version,
                path,
                git,
                branch,
                tag,
                rev,
                registry,
                registry_index,
                package,
                features,
                default_features,
                optional,
                public,
                metadata,
            },
        )
    }
}

/// Workspace dependency inheritance with optional overrides.
#[derive(Clone, Debug)]
pub struct WorkspaceDependency {
    /// Must be `true` to indicate workspace inheritance.
    pub workspace: bool,
    /// Override features from the workspace dependency.
    pub features: Option<Vec<String>>,
    /// Override the optional setting from the workspace dependency.
    pub optional: Option<bool>,
    /// Override the default-features setting from the workspace dependency.
    pub default_features: Option<bool>,
}

/// The mathematical model of a [`WorkspaceDependency`].
pub struct WorkspaceDependencyModel {
    pub workspace: bool,
    pub features: Option<Seq<Seq<char>>>,
    pub optional: Option<bool>,
    pub default_features: Option<bool>,
}

impl DeepView for WorkspaceDependency {
    type V = WorkspaceDependencyModel;

    open spec fn deep_view(&self) -> WorkspaceDependencyModel {
        WorkspaceDependencyModel {
            workspace: self.workspace.deep_view(),
            features: self.features.deep_view(),
            optional: self.optional.deep_view(),
            default_features: self.default_features.deep_view(),
        }
    }
}

impl Decode for WorkspaceDependency {
    /// A table decodes field by field, in the order of declaration; the first
    /// field that fails gives the failure. A key that the shape does not
    /// declare fails before any field is read.
    open spec fn decoded(node: Node) -> Result<WorkspaceDependencyModel, Fault> {
        match node {
            Node::Table(t) => {
                let workspace = required_field::<bool>(t, "workspace"@, "WorkspaceDependency"@);
                let features = optional_field::<Vec<String>>(t, "features"@);
                let optional = optional_field::<bool>(t, "optional"@);
                let default_features = optional_field::<bool>(t, "default-features"@);
                if let Some(key) = first_undeclared(t, Self::declared_keys(), 0) {
                    Err(Fault::UnknownField { key })
                } else if workspace is Err {
                    Err(workspace->Err_0)
                } else if features is Err {
                    Err(features->Err_0)
                } else if optional is Err {
                    Err(optional->Err_0)
                } else if default_features is Err {
                    Err(default_features->Err_0)
                } else {
                    Ok(WorkspaceDependencyModel {
                        workspace: workspace->Ok_0,
                        features: features->Ok_0,
                        optional: optional->Ok_0,
                        default_features: default_features->Ok_0,
                    })
                }
            },
            _ => Err(mismatch(Kind::Table, node)),
        }
    }

    fn decode(value: &ValueNode) -> (r: Result<Self, DecodeError>) {
        let t = table_of(value)?;
        Self::check_declared(t)?;
        let workspace = required::<bool>(t, "workspace", "WorkspaceDependency")?;
        let features = field::<Vec<String>>(t, "features")?;
        let optional = field::<bool>(t, "optional")?;
        let default_features = field::<bool>(t, "default-features")?;
        Ok(WorkspaceDependency { workspace, features, optional, default_features })
    }
}

impl WorkspaceDependency {
    /// The keys that this closed shape declares.
    pub open spec fn declared_keys() -> Seq<Seq<char>> {
        seq!["workspace"@, "features"@, "optional"@, "default-features"@]
    }

    fn check_declared(entries: &Vec<(String, ValueNode)>) -> (r: Result<(), DecodeError>)
        ensures
            match r {
                Ok(_) => first_undeclared(entries_model(*entries), Self::declared_keys(), 0) is None,
                Err(e) => first_undeclared(entries_model(*entries), Self::declared_keys(), 0) matches Some(key)
                    && e.model() == (Fault::UnknownField { key }),
            },
    {
        let declared: Vec<&str> = vec!["workspace", "features", "optional", "default-features"];
        assert(names(declared@) =~= Self::declared_keys());
        match first_undeclared_key(entries, &declared) {
            Some(key) => Err(DecodeError::UnknownField { key: key.clone() }),
            None => Ok(()),
        }
    }
}

/// Target-specific configuration from `[target.'cfg(...)']`.
#[derive(Clone, Debug)]
pub struct TargetSpec {
    /// Target-specific regular dependencies.
    pub dependencies: Option<Mapping<Dependency>>,
    /// Target-specific development dependencies.
    pub dev_dependencies: Option<Mapping<Dependency>>,
    /// Target-specific build dependencies.
    pub build_dependencies: Option<Mapping<Dependency>>,
}

/// The mathematical model of a [`TargetSpec`].
pub struct TargetSpecModel {
    pub dependencies: Option<Seq<(Seq<char>, DependencyModel)>>,
    pub dev_dependencies: Option<Seq<(Seq<char>, DependencyModel)>>,
    pub build_dependencies: Option<Seq<(Seq<char>, DependencyModel)>>,
}

impl DeepView for TargetSpec {
    type V = TargetSpecModel;

    open spec fn deep_view(&self) -> TargetSpecModel {
        TargetSpecModel {
            dependencies: self.dependencies.deep_view(),
            dev_dependencies: self.dev_dependencies.deep_view(),
            build_dependencies: self.build_dependencies.deep_view(),
        }
    }
}

impl Decode for TargetSpec {
    /// A table decodes field by field, in the order of declaration; the first
    /// field that fails gives the failure. Keys that no field names are ignored.
    open spec fn decoded(node: Node) -> Result<TargetSpecModel, Fault> {
        match node {
            Node::Table(t) => {
                let dependencies = optional_field::<Mapping<Dependency>>(t, "dependencies"@);
                let dev_dependencies = optional_field::<Mapping<Dependency>>(t, "dev-dependencies"@);
                let build_dependencies = optional_field::<Mapping<Dependency>>(t, "build-dependencies"@);
                if dependencies is Err {
                    Err(dependencies->Err_0)
                } else if dev_dependencies is Err {
                    Err(dev_dependencies->Err_0)
                } else if build_dependencies is Err {
                    Err(build_dependencies->Err_0)
                } else {
                    Ok(TargetSpecModel {
                        dependencies: dependencies->Ok_0,
                        dev_dependencies: dev_dependencies->Ok_0,
                        build_dependencies: build_dependencies->Ok_0,
                    })
                }
            },
            _ => Err(mismatch(Kind::Table, node)),
        }
    }

    fn decode(value: &ValueNode) -> (r: Result<Self, DecodeError>) {
        let t = table_of(value)?;
        let dependencies = field::<Mapping<Dependency>>(t, "dependencies")?;
        let dev_dependencies = field::<Mapping<Dependency>>(t, "dev-dependencies")?;
        let build_dependencies = field::<Mapping<Dependency>>(t, "build-dependencies")?;
        Ok(TargetSpec { dependencies, dev_dependencies, build_dependencies })
    }
}

} // verus!
