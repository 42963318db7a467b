//! The `[workspace]` section.

use vstd::prelude::*;
use crate::decode::{Decode, field, mismatch, optional_field, table_of};
use crate::dependency::{Dependency, DependencyModel};
use crate::error::{DecodeError, Fault};
use crate::lints::{Lints, LintsModel};
use crate::mapping::Mapping;
use crate::package::{BoolOrVec, BoolOrVecModel, Edition, Resolver};
use crate::value::{Kind, Node, ValueNode};

verus! {

/// The `[workspace]` section of a Cargo.toml.
#[derive(Clone, Debug)]
pub struct Workspace {
    /// Packages to include in the workspace.
    pub members: Option<Vec<String>>,
    /// Packages to exclude from the workspace.
    pub exclude: Option<Vec<String>>,
    /// Packages to operate on when in workspace root without package selection flags.
    pub default_members: Option<Vec<String>>,
    /// Sets the dependency resolver to use.
    pub resolver: Option<Resolver>,
    /// Extra settings for external tools (ignored by Cargo).
    pub metadata: Option<ValueNode>,
    /// Shared dependencies for workspace members to inherit.
    pub dependencies: Option<Mapping<Dependency>>,
    /// Shared package metadata for workspace members to inherit.
    pub package: Option<WorkspacePackage>,
    /// Shared lint configuration for workspace members to inherit.
    pub lints: Option<Lints>,
}

/// The mathematical model of a [`Workspace`].
pub struct WorkspaceModel {
    pub members: Option<Seq<Seq<char>>>,
    pub exclude: Option<Seq<Seq<char>>>,
    pub default_members: Option<Seq<Seq<char>>>,
    pub resolver: Option<Resolver>,
    pub metadata: Option<Node>,
    pub dependencies: Option<Seq<(Seq<char>, DependencyModel)>>,
    pub package: Option<WorkspacePackageModel>,
    pub lints: Option<LintsModel>,
}

impl DeepView for Workspace {
    type V = WorkspaceModel;

    open spec fn deep_view(&self) -> WorkspaceModel {
        WorkspaceModel {
            members: self.members.deep_view(),
            exclude: self.exclude.deep_view(),
            default_members: self.default_members.deep_view(),
            resolver: self.resolver.deep_view(),
            metadata: self.metadata.deep_view(),
            dependencies: self.dependencies.deep_view(),
            package: self.package.deep_view(),
            lints: self.lints.deep_view(),
        }
    }
}

impl Decode for Workspace {
    /// A table decodes field by field, in the order of declaration; the first
    /// field that fails gives the failure. Keys that no field names are ignored.
    open spec fn decoded(node: Node) -> Result<WorkspaceModel, Fault> {
        match node {
            Node::Table(t) => {
                let members = optional_field::<Vec<String>>(t, "members"@);
                let exclude = optional_field::<Vec<String>>(t, "exclude"@);
                let default_members = optional_field::<Vec<String>>(t, "default-members"@);
                let resolver = optional_field::<Resolver>(t, "resolver"@);
                let metadata = optional_field::<ValueNode>(t, "metadata"@);
                let dependencies = optional_field::<Mapping<Dependency>>(t, "dependencies"@);
                let package = optional_field::<WorkspacePackage>(t, "package"@);
                let lints = optional_field::<Lints>(t, "lints"@);
                if members is Err {
                    Err(members->Err_0)
                } else if exclude is Err {
                    Err(exclude->Err_0)
                } else if default_members is Err {
                    Err(default_members->Err_0)
                } else if resolver is Err {
                    Err(resolver->Err_0)
                } else if metadata is Err {
                    Err(metadata->Err_0)
                } else if dependencies is Err {
                    Err(dependencies->Err_0)
                } else if package is Err {
                    Err(package->Err_0)
                } else if lints is Err {
                    Err(lints->Err_0)
                } else {
                    Ok(WorkspaceModel {
                        members: members->Ok_0,
                        exclude: exclude->Ok_0,
                        default_members: default_members->Ok_0,
                        resolver: resolver->Ok_0,
                        metadata: metadata->Ok_0,
                        dependencies: dependencies->Ok_0,
                        package: package->Ok_0,
                        lints: lints->Ok_0,
                    })
                }
            },
            _ => Err(mismatch(Kind::Table, node)),
        }
    }

    fn decode(value: &ValueNode) -> (r: Result<Self, DecodeError>) {
        let t = table_of(value)?;
        let members = field::<Vec<String>>(t, "members")?;
        let exclude = field::<Vec<String>>(t, "exclude")?;
        let default_members = field::<Vec<String>>(t, "default-members")?;
        let resolver = field::<Resolver>(t, "resolver")?;
        let metadata = field::<ValueNode>(t, "metadata")?;
        let dependencies = field::<Mapping<Dependency>>(t, "dependencies")?;
        let package = field::<WorkspacePackage>(t, "package")?;
        let lints = field::<Lints>(t, "lints")?;
        Ok(
            Workspace {
                members,
                exclude,
                default_members,
                resolver,
                metadata,
                dependencies,
                package,
                lints,
            },
        )
    }
}

/// Inheritable package metadata in `[workspace.package]`.
#[derive(Clone, Debug)]
pub struct WorkspacePackage {
    /// The package version following SemVer format.
    pub version: Option<String>,
    /// People or organizations considered package authors.
    pub authors: Option<Vec<String>>,
    /// The Rust edition used for compilation.
    pub edition: Option<Edition>,
    /// The minimum supported Rust toolchain version.
    pub rust_version: Option<String>,
    /// A short text blurb about the package.
    pub description: Option<String>,
    /// URL to the crate's documentation website.
    pub documentation: Option<String>,
    /// Path to the README file.
    pub readme: Option<String>,
    /// URL of the package's home page.
    pub homepage: Option<String>,
    /// URL to the package's source repository.
    pub repository: Option<String>,
    /// SPDX 2.3 license expression.
    pub license: Option<String>,
    /// Path to a license text file.
    pub license_file: Option<String>,
    /// Searchable keywords for registry discoverability.
    pub keywords: Option<Vec<String>>,
    /// Categories from crates.io's predefined list.
    pub categories: Option<Vec<String>>,
    /// Controls publishing to registries.
    pub publish: Option<BoolOrVec>,
}

/// The mathematical model of a [`WorkspacePackage`].
pub struct WorkspacePackageModel {
    pub version: Option<Seq<char>>,
    pub authors: Option<Seq<Seq<char>>>,
    pub edition: Option<Edition>,
    pub rust_version: Option<Seq<char>>,
    pub description: Option<Seq<char>>,
    pub documentation: Option<Seq<char>>,
    pub readme: Option<Seq<char>>,
    pub homepage: Option<Seq<char>>,
    pub repository: Option<Seq<char>>,
    pub license: Option<Seq<char>>,
    pub license_file: Option<Seq<char>>,
    pub keywords: Option<Seq<Seq<char>>>,
    pub categories: Option<Seq<Seq<char>>>,
    pub publish: Option<BoolOrVecModel>,
}

impl DeepView for WorkspacePackage {
    type V = WorkspacePackageModel;

    open spec fn deep_view(&self) -> WorkspacePackageModel {
        WorkspacePackageModel {
            version: self.version.deep_view(),
            authors: self.authors.deep_view(),
            edition: self.edition.deep_view(),
            rust_version: self.rust_version.deep_view(),
            description: self.description.deep_view(),
            documentation: self.documentation.deep_view(),
            readme: self.readme.deep_view(),
            homepage: self.homepage.deep_view(),
            repository: self.repository.deep_view(),
            license: self.license.deep_view(),
            license_file: self.license_file.deep_view(),
            keywords: self.keywords.deep_view(),
            categories: self.categories.deep_view(),
            publish: self.publish.deep_view(),
        }
    }
}

impl Decode for WorkspacePackage {
    /// A table decodes field by field, in the order of declaration; the first
    /// field that fails gives the failure. Keys that no field names are ignored.
    open spec fn decoded(node: Node) -> Result<WorkspacePackageModel, Fault> {
        match node {
            Node::Table(t) => {
                let version = optional_field::<String>(t, "version"@);
                let authors = optional_field::<Vec<String>>(t, "authors"@);
                let edition = optional_field::<Edition>(t, "edition"@);
                let rust_version = optional_field::<String>(t, "rust-version"@);
                let description = optional_field::<String>(t, "description"@);
                let documentation = optional_field::<String>(t, "documentation"@);
                let readme = optional_field::<String>(t, "readme"@);
                let homepage = optional_field::<String>(t, "homepage"@);
                let repository = optional_field::<String>(t, "repository"@);
                let license = optional_field::<String>(t, "license"@);
                let license_file = optional_field::<String>(t, "license-file"@);
                let keywords = optional_field::<Vec<String>>(t, "keywords"@);
                let categories = optional_field::<Vec<String>>(t, "categories"@);
                let publish = optional_field::<BoolOrVec>(t, "publish"@);
                if version is Err {
                    Err(version->Err_0)
                } else if authors is Err {
                    Err(authors->Err_0)
                } else if edition is Err {
                    Err(edition->Err_0)
                } else if rust_version is Err {
                    Err(rust_version->Err_0)
                } else if description is Err {
                    Err(description->Err_0)
                } else if documentation is Err {
                    Err(documentation->Err_0)
                } else if readme is Err {
                    Err(readme->Err_0)
                } else if homepage is Err {
                    Err(homepage->Err_0)
                } else if repository is Err {
                    Err(repository->Err_0)
                } else if license is Err {
                    Err(license->Err_0)
                } else if license_file is Err {
                    Err(license_file->Err_0)
                } else if keywords is Err {
                    Err(keywords->Err_0)
                } else if categories is Err {
                    Err(categories->Err_0)
                } else if publish is Err {
                    Err(publish->Err_0)
                } else {
                    Ok(WorkspacePackageModel {
                        version: version->Ok_0,
                        authors: authors->Ok_0,
                        edition: edition->Ok_0,
                        rust_version: rust_version->Ok_0,
                        description: description->Ok_0,
                        documentation: documentation->Ok_0,
                        readme: readme->Ok_0,
                        homepage: homepage->Ok_0,
                        repository: repository->Ok_0,
                        license: license->Ok_0,
                        license_file: license_file->Ok_0,
                        keywords: keywords->Ok_0,
                        categories: categories->Ok_0,
                        publish: publish->Ok_0,
                    })
                }
            },
            _ => Err(mismatch(Kind::Table, node)),
        }
    }

    fn decode(value: &ValueNode) -> (r: Result<Self, DecodeError>) {
        let t = table_of(value)?;
        let version = field::<String>(t, "version")?;
        let authors = field::<Vec<String>>(t, "authors")?;
        let edition = field::<Edition>(t, "edition")?;
        let rust_version = field::<String>(t, "rust-version")?;
        let description = field::<String>(t, "description")?;
        let documentation = field::<String>(t, "documentation")?;
        let readme = field::<String>(t, "readme")?;
        let homepage = field::<String>(t, "homepage")?;
        let repository = field::<String>(t, "repository")?;
        let license = field::<String>(t, "license")?;
        let license_file = field::<String>(t, "license-file")?;
        let keywords = field::<Vec<String>>(t, "keywords")?;
        let categories = field::<Vec<String>>(t, "categories")?;
        let publish = field::<BoolOrVec>(t, "publish")?;
        Ok(
            WorkspacePackage {
                version,
                authors,
                edition,
                rust_version,
                description,
                documentation,
                readme,
                homepage,
                repository,
                license,
                license_file,
                keywords,
                categories,
                publish,
            },
        )
    }
}

} // verus!
