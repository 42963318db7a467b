//! The `[package]` section and the value shapes that it shares with other sections.

use vstd::prelude::*;
use crate::decode::{
    Decode, field, mismatch, no_attempts, optional_field, record, required, required_field,
    same_text, table_of, text_of,
};
use crate::error::{attempts_model, DecodeError, Fault};
use crate::value::{Kind, Node, ValueNode};

verus! {

/// The `[package]` section of a Cargo.toml.
#[derive(Clone, Debug)]
pub struct Package {
    /// The package identifier used in dependencies and as the default name for targets.
    pub name: Option<String>,
    /// The package version following SemVer format (e.g., `1.0.0`).
    pub version: Option<StringOrWorkspace>,
    /// People or organizations considered package authors (deprecated).
    pub authors: Option<VecOrWorkspace>,
    /// The Rust edition used for compilation (e.g., `2021`, `2024`).
    pub edition: Option<EditionOrWorkspace>,
    /// The minimum supported Rust toolchain version for the package.
    pub rust_version: Option<StringOrWorkspace>,
    /// A short text blurb about the package displayed on registries.
    pub description: Option<StringOrWorkspace>,
    /// URL to the crate's documentation website.
    pub documentation: Option<StringOrWorkspace>,
    /// Path to the README file relative to Cargo.toml.
    pub readme: Option<StringOrWorkspace>,
    /// URL of the package's home page.
    pub homepage: Option<StringOrWorkspace>,
    /// URL to the package's source repository.
    pub repository: Option<StringOrWorkspace>,
    /// SPDX 2.3 license expression (e.g., `MIT OR Apache-2.0`).
    pub license: Option<StringOrWorkspace>,
    /// Path to a license text file for nonstandard licenses.
    pub license_file: Option<StringOrWorkspace>,
    /// Up to 5 searchable keywords for registry discoverability.
    pub keywords: Option<VecOrWorkspace>,
    /// Up to 5 categories from crates.io's predefined list.
    pub categories: Option<VecOrWorkspace>,
    /// Path to the workspace root directory.
    pub workspace: Option<StringOrWorkspace>,
    /// Path to the build script file, or `false` to disable auto-detection.
    pub build: Option<StringOrBool>,
    /// Name of the native library being linked by a build script.
    pub links: Option<String>,
    /// Gitignore-style patterns for files to exclude when publishing.
    pub exclude: Option<Vec<String>>,
    /// Gitignore-style patterns for files to explicitly include when publishing.
    pub included: Option<Vec<String>>,
    /// Controls publishing to registries; array of registry names or `false` to prevent publishing.
    pub publish: Option<BoolOrVec>,
    /// A table for external tool configuration, ignored by Cargo.
    pub metadata: Option<ValueNode>,
    /// The default binary selected by `cargo run` when multiple binaries exist.
    pub default_run: Option<String>,
    /// Disables automatic library target discovery.
    pub autolib: Option<bool>,
    /// Disables automatic binary target discovery.
    pub autobins: Option<bool>,
    /// Disables automatic example target discovery.
    pub autoexamples: Option<bool>,
    /// Disables automatic test target discovery.
    pub autotests: Option<bool>,
    /// Disables automatic benchmark target discovery.
    pub autobenches: Option<bool>,
    /// Sets which dependency resolver version to use.
    pub resolver: Option<Resolver>,
}

/// The mathematical model of a [`Package`].
pub struct PackageModel {
    pub name: Option<Seq<char>>,
    pub version: Option<StringOrWorkspaceModel>,
    pub authors: Option<VecOrWorkspaceModel>,
    pub edition: Option<EditionOrWorkspaceModel>,
    pub rust_version: Option<StringOrWorkspaceModel>,
    pub description: Option<StringOrWorkspaceModel>,
    pub documentation: Option<StringOrWorkspaceModel>,
    pub readme: Option<StringOrWorkspaceModel>,
    pub homepage: Option<StringOrWorkspaceModel>,
    pub repository: Option<StringOrWorkspaceModel>,
    pub license: Option<StringOrWorkspaceModel>,
    pub license_file: Option<StringOrWorkspaceModel>,
    pub keywords: Option<VecOrWorkspaceModel>,
    pub categories: Option<VecOrWorkspaceModel>,
    pub workspace: Option<StringOrWorkspaceModel>,
    pub build: Option<StringOrBoolModel>,
    pub links: Option<Seq<char>>,
    pub exclude: Option<Seq<Seq<char>>>,
    pub included: Option<Seq<Seq<char>>>,
    pub publish: Option<BoolOrVecModel>,
    pub metadata: Option<Node>,
    pub default_run: Option<Seq<char>>,
    pub autolib: Option<bool>,
    pub autobins: Option<bool>,
    pub autoexamples: Option<bool>,
    pub autotests: Option<bool>,
    pub autobenches: Option<bool>,
    pub resolver: Option<Resolver>,
}

impl DeepView for Package {
    type V = PackageModel;

    open spec fn deep_view(&self) -> PackageModel {
        PackageModel {
            name: self.name.deep_view(),
            version: self.version.deep_view(),
            authors: self.authors.deep_view(),
            edition: self.edition.deep_view(),
            rust_version: self.rust_version.deep_view(),
            description: self.description.deep_view(),
            documentation: self.documentation.deep_view(),
            readme: self.readme.deep_view(),
            homepage: self.homepage.deep_view(),
            repository: self.repository.deep_view(),
            license: self.license.deep_view(),
            license_file: self.license_file.deep_view(),
            keywords: self.keywords.deep_view(),
            categories: self.categories.deep_view(),
            workspace: self.workspace.deep_view(),
            build: self.build.deep_view(),
            links: self.links.deep_view(),
            exclude: self.exclude.deep_view(),
            included: self.included.deep_view(),
            publish: self.publish.deep_view(),
            metadata: self.metadata.deep_view(),
            default_run: self.default_run.deep_view(),
            autolib: self.autolib.deep_view(),
            autobins: self.autobins.deep_view(),
            autoexamples: self.autoexamples.deep_view(),
            autotests: self.autotests.deep_view(),
            autobenches: self.autobenches.deep_view(),
            resolver: self.resolver.deep_view(),
        }
    }
}

impl Decode for Package {
    /// A table decodes field by field, in the order of declaration; the first
    /// field that fails gives the failure. Keys that no field names are ignored.
    open spec fn decoded(node: Node) -> Result<PackageModel, Fault> {
        match node {
            Node::Table(t) => {
                let name = optional_field::<String>(t, "name"@);
                let version = optional_field::<StringOrWorkspace>(t, "version"@);
                let authors = optional_field::<VecOrWorkspace>(t, "authors"@);
                let edition = optional_field::<EditionOrWorkspace>(t, "edition"@);
                let rust_version = optional_field::<StringOrWorkspace>(t, "rust-version"@);
                let description = optional_field::<StringOrWorkspace>(t, "description"@);
                let documentation = optional_field::<StringOrWorkspace>(t, "documentation"@);
                let readme = optional_field::<StringOrWorkspace>(t, "readme"@);
                let homepage = optional_field::<StringOrWorkspace>(t, "homepage"@);
                let repository = optional_field::<StringOrWorkspace>(t, "repository"@);
                let license = optional_field::<StringOrWorkspace>(t, "license"@);
                let license_file = optional_field::<StringOrWorkspace>(t, "license-file"@);
                let keywords = optional_field::<VecOrWorkspace>(t, "keywords"@);
                let categories = optional_field::<VecOrWorkspace>(t, "categories"@);
                let workspace = optional_field::<StringOrWorkspace>(t, "workspace"@);
                let build = optional_field::<StringOrBool>(t, "build"@);
                let links = optional_field::<String>(t, "links"@);
                let exclude = optional_field::<Vec<String>>(t, "exclude"@);
                let included = optional_field::<Vec<String>>(t, "include"@);
                let publish = optional_field::<BoolOrVec>(t, "publish"@);
                let metadata = optional_field::<ValueNode>(t, "metadata"@);
                let default_run = optional_field::<String>(t, "default-run"@);
                let autolib = optional_field::<bool>(t, "autolib"@);
                let autobins = optional_field::<bool>(t, "autobins"@);
                let autoexamples = optional_field::<bool>(t, "autoexamples"@);
                let autotests = optional_field::<bool>(t, "autotests"@);
                let autobenches = optional_field::<bool>(t, "autobenches"@);
                let resolver = optional_field::<Resolver>(t, "resolver"@);
                if name is Err {
                    Err(name->Err_0)
                } else if version is Err {
                    Err(version->Err_0)
                } else if authors is Err {
                    Err(authors->Err_0)
                } else if edition is Err {
                    Err(edition->Err_0)
                } else if rust_version is Err {
                    Err(rust_version->Err_0)
                } else if description is Err {
                    Err(description->Err_0)
                } else if documentation is Err {
                    Err(documentation->Err_0)
                } else if readme is Err {
                    Err(readme->Err_0)
                } else if homepage is Err {
                    Err(homepage->Err_0)
                } else if repository is Err {
                    Err(repository->Err_0)
                } else if license is Err {
                    Err(license->Err_0)
                } else if license_file is Err {
                    Err(license_file->Err_0)
                } else if keywords is Err {
                    Err(keywords->Err_0)
                } else if categories is Err {
                    Err(categories->Err_0)
                } else if workspace is Err {
                    Err(workspace->Err_0)
                } else if build is Err {
                    Err(build->Err_0)
                } else if links is Err {
                    Err(links->Err_0)
                } else if exclude is Err {
                    Err(exclude->Err_0)
                } else if included is Err {
                    Err(included->Err_0)
                } else if publish is Err {
                    Err(publish->Err_0)
                } else if metadata is Err {
                    Err(metadata->Err_0)
                } else if default_run is Err {
                    Err(default_run->Err_0)
                } else if autolib is Err {
                    Err(autolib->Err_0)
                } else if autobins is Err {
                    Err(autobins->Err_0)
                } else if autoexamples is Err {
                    Err(autoexamples->Err_0)
                } else if autotests is Err {
                    Err(autotests->Err_0)
                } else if autobenches is Err {
                    Err(autobenches->Err_0)
                } else if resolver is Err {
                    Err(resolver->Err_0)
                } else {
                    Ok(PackageModel {
                        name: name->Ok_0,
                        version: version->Ok_0,
                        authors: authors->Ok_0,
                        edition: edition->Ok_0,
                        rust_version: rust_version->Ok_0,
                        description: description->Ok_0,
                        documentation: documentation->Ok_0,
                        readme: readme->Ok_0,
                        homepage: homepage->Ok_0,
                        repository: repository->Ok_0,
                        license: license->Ok_0,
                        license_file: license_file->Ok_0,
                        keywords: keywords->Ok_0,
                        categories: categories->Ok_0,
                        workspace: workspace->Ok_0,
                        build: build->Ok_0,
                        links: links->Ok_0,
                        exclude: exclude->Ok_0,
                        included: included->Ok_0,
                        publish: publish->Ok_0,
                        metadata: metadata->Ok_0,
                        default_run: default_run->Ok_0,
                        autolib: autolib->Ok_0,
                        autobins: autobins->Ok_0,
                        autoexamples: autoexamples->Ok_0,
                        autotests: autotests->Ok_0,
                        autobenches: autobenches->Ok_0,
                        resolver: resolver->Ok_0,
                    })
                }
            },
            _ => Err(mismatch(Kind::Table, node)),
        }
    }

    fn decode(value: &ValueNode) -> (r: Result<Self, DecodeError>) {
        let t = table_of(value)?;
        let name = field::<String>(t, "name")?;
        let version = field::<StringOrWorkspace>(t, "version")?;
        let authors = field::<VecOrWorkspace>(t, "authors")?;
        let edition = field::<EditionOrWorkspace>(t, "edition")?;
        let rust_version = field::<StringOrWorkspace>(t, "rust-version")?;
        let description = field::<StringOrWorkspace>(t, "description")?;
        let documentation = field::<StringOrWorkspace>(t, "documentation")?;
        let readme = field::<StringOrWorkspace>(t, "readme")?;
        let homepage = field::<StringOrWorkspace>(t, "homepage")?;
        let repository = field::<StringOrWorkspace>(t, "repository")?;
        let license = field::<StringOrWorkspace>(t, "license")?;
        let license_file = field::<StringOrWorkspace>(t, "license-file")?;
        let keywords = field::<VecOrWorkspace>(t, "keywords")?;
        let categories = field::<VecOrWorkspace>(t, "categories")?;
        let workspace = field::<StringOrWorkspace>(t, "workspace")?;
        let build = field::<StringOrBool>(t, "build")?;
        let links = field::<String>(t, "links")?;
        let exclude = field::<Vec<String>>(t, "exclude")?;
        let included = field::<Vec<String>>(t, "include")?;
        let publish = field::<BoolOrVec>(t, "publish")?;
        let metadata = field::<ValueNode>(t, "metadata")?;
        let default_run = field::<String>(t, "default-run")?;
        let autolib = field::<bool>(t, "autolib")?;
        let autobins = field::<bool>(t, "autobins")?;
        let autoexamples = field::<bool>(t, "autoexamples")?;
        let autotests = field::<bool>(t, "autotests")?;
        let autobenches = field::<bool>(t, "autobenches")?;
        let resolver = field::<Resolver>(t, "resolver")?;
        Ok(
            Package {
                name,
                version,
                authors,
                edition,
                rust_version,
                description,
                documentation,
                readme,
                homepage,
                repository,
                license,
                license_file,
                keywords,
                categories,
                workspace,
                build,
                links,
                exclude,
                included,
                publish,
                metadata,
                default_run,
                autolib,
                autobins,
                autoexamples,
                autotests,
                autobenches,
                resolver,
            },
        )
    }
}

/// Workspace inheritance marker (`{ workspace = true }`).
#[derive(Clone, Debug)]
pub struct WorkspaceRef {
    /// Must be `true` to indicate workspace inheritance.
    pub workspace: bool,
}

/// The mathematical model of a [`WorkspaceRef`].
pub struct WorkspaceRefModel {
    pub workspace: bool,
}

impl DeepView for WorkspaceRef {
    type V = WorkspaceRefModel;

    open spec fn deep_view(&self) -> WorkspaceRefModel {
        WorkspaceRefModel {
            workspace: self.workspace.deep_view(),
        }
    }
}

impl Decode for WorkspaceRef {
    /// A table decodes field by field, in the order of declaration; the first
    /// field that fails gives the failure. Keys that no field names are ignored.
    open spec fn decoded(node: Node) -> Result<WorkspaceRefModel, Fault> {
        match node {
            Node::Table(t) => {
                let workspace = required_field::<bool>(t, "workspace"@, "WorkspaceRef"@);
                if workspace is Err {
                    Err(workspace->Err_0)
                } else {
                    Ok(WorkspaceRefModel {
                        workspace: workspace->Ok_0,
                    })
                }
            },
            _ => Err(mismatch(Kind::Table, node)),
        }
    }

    fn decode(value: &ValueNode) -> (r: Result<Self, DecodeError>) {
        let t = table_of(value)?;
        let workspace = required::<bool>(t, "workspace", "WorkspaceRef")?;
        Ok(WorkspaceRef { workspace })
    }
}

/// A value that can be a direct edition or inherited from workspace.
#[derive(Clone, Debug)]
pub enum EditionOrWorkspace {
    /// Inherited from `[workspace.package]`.
    Workspace(WorkspaceRef),
    /// Direct edition value.
    Edition(Edition),
}

/// The mathematical model of a [`EditionOrWorkspace`].
pub enum EditionOrWorkspaceModel {
    Workspace(WorkspaceRefModel),
    Edition(Edition),
}

impl DeepView for EditionOrWorkspace {
    type V = EditionOrWorkspaceModel;

    open spec fn deep_view(&self) -> EditionOrWorkspaceModel {
        match self {
            EditionOrWorkspace::Workspace(x) => EditionOrWorkspaceModel::Workspace(x.deep_view()),
            EditionOrWorkspace::Edition(x) => EditionOrWorkspaceModel::Edition(x.deep_view()),
        }
    }
}

impl Decode for EditionOrWorkspace {
    /// The variants are tried in the order of declaration and the first that
    /// decodes the node is taken; where none does, the failure lists each
    /// variant with the reason it failed for.
    open spec fn decoded(node: Node) -> Result<EditionOrWorkspaceModel, Fault> {
        let v0 = <WorkspaceRef as Decode>::decoded(node);
        let v1 = <Edition as Decode>::decoded(node);
        if v0 is Ok {
            Ok(EditionOrWorkspaceModel::Workspace(v0->Ok_0))
        } else if v1 is Ok {
            Ok(EditionOrWorkspaceModel::Edition(v1->Ok_0))
        } else {
            Err(
                Fault::NoMatchingVariant {
                    attempted: seq![
                        ("Workspace"@, v0->Err_0),
                        ("Edition"@, v1->Err_0),
                    ],
                },
            )
        }
    }

    fn decode(value: &ValueNode) -> (r: Result<Self, DecodeError>) {
        let mut attempted = no_attempts();
        match <WorkspaceRef as Decode>::decode(value) {
            Ok(x) => {
                return Ok(EditionOrWorkspace::Workspace(x));
            },
            Err(e) => record(&mut attempted, "Workspace", e),
        }
        match <Edition as Decode>::decode(value) {
            Ok(x) => {
                return Ok(EditionOrWorkspace::Edition(x));
            },
            Err(e) => record(&mut attempted, "Edition", e),
        }
        assert(attempts_model(attempted) =~= seq![
            ("Workspace"@, <WorkspaceRef as Decode>::decoded(value.model())->Err_0),
            ("Edition"@, <Edition as Decode>::decoded(value.model())->Err_0),
        ]);
        Err(DecodeError::NoMatchingVariant { attempted })
    }
}

/// A value that can be a direct string or inherited from workspace.
#[derive(Clone, Debug)]
pub enum StringOrWorkspace {
    /// Direct string value.
    String(String),
    /// Inherited from `[workspace.package]`.
    Workspace(WorkspaceRef),
}

/// The mathematical model of a [`StringOrWorkspace`].
pub enum StringOrWorkspaceModel {
    String(Seq<char>),
    Workspace(WorkspaceRefModel),
}

impl DeepView for StringOrWorkspace {
    type V = StringOrWorkspaceModel;

    open spec fn deep_view(&self) -> StringOrWorkspaceModel {
        match self {
            StringOrWorkspace::String(x) => StringOrWorkspaceModel::String(x.deep_view()),
            StringOrWorkspace::Workspace(x) => StringOrWorkspaceModel::Workspace(x.deep_view()),
        }
    }
}

impl Decode for StringOrWorkspace {
    /// The variants are tried in the order of declaration and the first that
    /// decodes the node is taken; where none does, the failure lists each
    /// variant with the reason it failed for.
    open spec fn decoded(node: Node) -> Result<StringOrWorkspaceModel, Fault> {
        let v0 = <String as Decode>::decoded(node);
        let v1 = <WorkspaceRef as Decode>::decoded(node);
        if v0 is Ok {
            Ok(StringOrWorkspaceModel::String(v0->Ok_0))
        } else if v1 is Ok {
            Ok(StringOrWorkspaceModel::Workspace(v1->Ok_0))
        } else {
            Err(
                Fault::NoMatchingVariant {
                    attempted: seq![
                        ("String"@, v0->Err_0),
                        ("Workspace"@, v1->Err_0),
                    ],
                },
            )
        }
    }

    fn decode(value: &ValueNode) -> (r: Result<Self, DecodeError>) {
        let mut attempted = no_attempts();
        match <String as Decode>::decode(value) {
            Ok(x) => {
                return Ok(StringOrWorkspace::String(x));
            },
            Err(e) => record(&mut attempted, "String", e),
        }
        match <WorkspaceRef as Decode>::decode(value) {
            Ok(x) => {
                return Ok(StringOrWorkspace::Workspace(x));
            },
            Err(e) => record(&mut attempted, "Workspace", e),
        }
        assert(attempts_model(attempted) =~= seq![
            ("String"@, <String as Decode>::decoded(value.model())->Err_0),
            ("Workspace"@, <WorkspaceRef as Decode>::decoded(value.model())->Err_0),
        ]);
        Err(DecodeError::NoMatchingVariant { attempted })
    }
}

/// A value that can be a direct array or inherited from workspace.
#[derive(Clone, Debug)]
pub enum VecOrWorkspace {
    /// Direct array value.
    Values(Vec<String>),
    /// Inherited from `[workspace.package]`.
    Workspace(WorkspaceRef),
}

/// The mathematical model of a [`VecOrWorkspace`].
pub enum VecOrWorkspaceModel {
    Values(Seq<Seq<char>>),
    Workspace(WorkspaceRefModel),
}

impl DeepView for VecOrWorkspace {
    type V = VecOrWorkspaceModel;

    open spec fn deep_view(&self) -> VecOrWorkspaceModel {
        match self {
            VecOrWorkspace::Values(x) => VecOrWorkspaceModel::Values(x.deep_view()),
            VecOrWorkspace::Workspace(x) => VecOrWorkspaceModel::Workspace(x.deep_view()),
        }
    }
}

impl Decode for VecOrWorkspace {
    /// The variants are tried in the order of declaration and the first that
    /// decodes the node is taken; where none does, the failure lists each
    /// variant with the reason it failed for.
    open spec fn decoded(node: Node) -> Result<VecOrWorkspaceModel, Fault> {
        let v0 = <Vec<String> as Decode>::decoded(node);
        let v1 = <WorkspaceRef as Decode>::decoded(node);
        if v0 is Ok {
            Ok(VecOrWorkspaceModel::Values(v0->Ok_0))
        } else if v1 is Ok {
            Ok(VecOrWorkspaceModel::Workspace(v1->Ok_0))
        } else {
            Err(
                Fault::NoMatchingVariant {
                    attempted: seq![
                        ("Values"@, v0->Err_0),
                        ("Workspace"@, v1->Err_0),
                    ],
                },
            )
        }
    }

    fn decode(value: &ValueNode) -> (r: Result<Self, DecodeError>) {
        let mut attempted = no_attempts();
        match <Vec<String> as Decode>::decode(value) {
            Ok(x) => {
                return Ok(VecOrWorkspace::Values(x));
            },
            Err(e) => record(&mut attempted, "Values", e),
        }
        match <WorkspaceRef as Decode>::decode(value) {
            Ok(x) => {
                return Ok(VecOrWorkspace::Workspace(x));
            },
            Err(e) => record(&mut attempted, "Workspace", e),
        }
        assert(attempts_model(attempted) =~= seq![
            ("Values"@, <Vec<String> as Decode>::decoded(value.model())->Err_0),
            ("Workspace"@, <WorkspaceRef as Decode>::decoded(value.model())->Err_0),
        ]);
        Err(DecodeError::NoMatchingVariant { attempted })
    }
}

/// A value that can be a string path or boolean.
#[derive(Clone, Debug)]
pub enum StringOrBool {
    /// A string value (typically a path).
    String(String),
    /// A boolean value.
    Bool(bool),
}

/// The mathematical model of a [`StringOrBool`].
pub enum StringOrBoolModel {
    String(Seq<char>),
    Bool(bool),
}

impl DeepView for StringOrBool {
    type V = StringOrBoolModel;

    open spec fn deep_view(&self) -> StringOrBoolModel {
        match self {
            StringOrBool::String(x) => StringOrBoolModel::String(x.deep_view()),
            StringOrBool::Bool(x) => StringOrBoolModel::Bool(x.deep_view()),
        }
    }
}

impl Decode for StringOrBool {
    /// The variants are tried in the order of declaration and the first that
    /// decodes the node is taken; where none does, the failure lists each
    /// variant with the reason it failed for.
    open spec fn decoded(node: Node) -> Result<StringOrBoolModel, Fault> {
        let v0 = <String as Decode>::decoded(node);
        let v1 = <bool as Decode>::decoded(node);
        if v0 is Ok {
            Ok(StringOrBoolModel::String(v0->Ok_0))
        } else if v1 is Ok {
            Ok(StringOrBoolModel::Bool(v1->Ok_0))
        } else {
            Err(
                Fault::NoMatchingVariant {
                    attempted: seq![
                        ("String"@, v0->Err_0),
                        ("Bool"@, v1->Err_0),
                    ],
                },
            )
        }
    }

    fn decode(value: &ValueNode) -> (r: Result<Self, DecodeError>) {
        let mut attempted = no_attempts();
        match <String as Decode>::decode(value) {
            Ok(x) => {
                return Ok(StringOrBool::String(x));
            },
            Err(e) => record(&mut attempted, "String", e),
        }
        match <bool as Decode>::decode(value) {
            Ok(x) => {
                return Ok(StringOrBool::Bool(x));
            },
            Err(e) => record(&mut attempted, "Bool", e),
        }
        assert(attempts_model(attempted) =~= seq![
            ("String"@, <String as Decode>::decoded(value.model())->Err_0),
            ("Bool"@, <bool as Decode>::decoded(value.model())->Err_0),
        ]);
        Err(DecodeError::NoMatchingVariant { attempted })
    }
}

/// A value that can be a boolean or array of strings.
#[derive(Clone, Debug)]
pub enum BoolOrVec {
    /// A boolean value.
    Bool(bool),
    /// An array of strings.
    Vec(Vec<String>),
}

/// The mathematical model of a [`BoolOrVec`].
pub enum BoolOrVecModel {
    Bool(bool),
    Vec(Seq<Seq<char>>),
}

impl DeepView for BoolOrVec {
    type V = BoolOrVecModel;

    open spec fn deep_view(&self) -> BoolOrVecModel {
        match self {
            BoolOrVec::Bool(x) => BoolOrVecModel::Bool(x.deep_view()),
            BoolOrVec::Vec(x) => BoolOrVecModel::Vec(x.deep_view()),
        }
    }
}

impl Decode for BoolOrVec {
    /// The variants are tried in the order of declaration and the first that
    /// decodes the node is taken; where none does, the failure lists each
    /// variant with the reason it failed for.
    open spec fn decoded(node: Node) -> Result<BoolOrVecModel, Fault> {
        let v0 = <bool as Decode>::decoded(node);
        let v1 = <Vec<String> as Decode>::decoded(node);
        if v0 is Ok {
            Ok(BoolOrVecModel::Bool(v0->Ok_0))
        } else if v1 is Ok {
            Ok(BoolOrVecModel::Vec(v1->Ok_0))
        } else {
            Err(
                Fault::NoMatchingVariant {
                    attempted: seq![
                        ("Bool"@, v0->Err_0),
                        ("Vec"@, v1->Err_0),
                    ],
                },
            )
        }
    }

    fn decode(value: &ValueNode) -> (r: Result<Self, DecodeError>) {
        let mut attempted = no_attempts();
        match <bool as Decode>::decode(value) {
            Ok(x) => {
                return Ok(BoolOrVec::Bool(x));
            },
            Err(e) => record(&mut attempted, "Bool", e),
        }
        match <Vec<String> as Decode>::decode(value) {
            Ok(x) => {
                return Ok(BoolOrVec::Vec(x));
            },
            Err(e) => record(&mut attempted, "Vec", e),
        }
        assert(attempts_model(attempted) =~= seq![
            ("Bool"@, <bool as Decode>::decoded(value.model())->Err_0),
            ("Vec"@, <Vec<String> as Decode>::decoded(value.model())->Err_0),
        ]);
        Err(DecodeError::NoMatchingVariant { attempted })
    }
}

/// Rust edition year.
#[derive(Clone, Copy, Debug, PartialEq, Eq, Structural)]
pub enum Edition {
    /// Rust 2015 edition.
    E2015,
    /// Rust 2018 edition.
    E2018,
    /// Rust 2021 edition.
    E2021,
    /// Rust 2024 edition.
    E2024,
}

impl DeepView for Edition {
    type V = Edition;

    open spec fn deep_view(&self) -> Edition {
        *self
    }
}

impl Decode for Edition {
    /// A string decodes to the variant that it names; any other string names none.
    open spec fn decoded(node: Node) -> Result<Edition, Fault> {
        match node {
            Node::String(s) => {
                if s == "2015"@ {
                    Ok(Edition::E2015)
                } else if s == "2018"@ {
                    Ok(Edition::E2018)
                } else if s == "2021"@ {
                    Ok(Edition::E2021)
                } else if s == "2024"@ {
                    Ok(Edition::E2024)
                } else {
                    Err(Fault::UnknownVariant { name: s })
                }
            },
            _ => Err(mismatch(Kind::String, node)),
        }
    }

    fn decode(value: &ValueNode) -> (r: Result<Self, DecodeError>) {
        let s = text_of(value)?;
        if same_text(s, "2015") {
            Ok(Edition::E2015)
        } else if same_text(s, "2018") {
            Ok(Edition::E2018)
        } else if same_text(s, "2021") {
            Ok(Edition::E2021)
        } else if same_text(s, "2024") {
            Ok(Edition::E2024)
        } else {
            Err(DecodeError::UnknownVariant { name: s.clone() })
        }
    }
}

/// Cargo dependency resolver version.
#[derive(Clone, Copy, Debug, PartialEq, Eq, Structural)]
pub enum Resolver {
    /// Version 1 resolver.
    V1,
    /// Version 2 resolver (default for edition 2021+).
    V2,
    /// Version 3 resolver (default for edition 2024+).
    V3,
}

impl DeepView for Resolver {
    type V = Resolver;

    open spec fn deep_view(&self) -> Resolver {
        *self
    }
}

impl Decode for Resolver {
    /// A string decodes to the variant that it names; any other string names none.
    open spec fn decoded(node: Node) -> Result<Resolver, Fault> {
        match node {
            Node::String(s) => {
                if s == "1"@ {
                    Ok(Resolver::V1)
                } else if s == "2"@ {
                    Ok(Resolver::V2)
                } else if s == "3"@ {
                    Ok(Resolver::V3)
                } else {
                    Err(Fault::UnknownVariant { name: s })
                }
            },
            _ => Err(mismatch(Kind::String, node)),
        }
    }

    fn decode(value: &ValueNode) -> (r: Result<Self, DecodeError>) {
        let s = text_of(value)?;
        if same_text(s, "1") {
            Ok(Resolver::V1)
        } else if same_text(s, "2") {
            Ok(Resolver::V2)
        } else if same_text(s, "3") {
            Ok(Resolver::V3)
        } else {
            Err(DecodeError::UnknownVariant { name: s.clone() })
        }
    }
}

} // verus!
