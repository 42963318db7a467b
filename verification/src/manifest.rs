//! The manifest as a whole.

use vstd::prelude::*;
use crate::decode::{Decode, field, mismatch, optional_field, table_of};
use crate::dependency::{Dependency, DependencyModel, TargetSpec, TargetSpecModel};
use crate::document::{parse_as, parsed};
use crate::error::{DecodeError, Error, ErrorModel, Fault};
use crate::lints::{Badge, BadgeModel, Lints, LintsModel};
use crate::mapping::Mapping;
use crate::package::{Package, PackageModel};
use crate::profile::{Profile, ProfileModel};
use crate::target::{
    BenchTarget, BenchTargetModel, BinTarget, BinTargetModel, ExampleTarget, ExampleTargetModel,
    LibTarget, LibTargetModel, TestTarget, TestTargetModel,
};
use crate::value::{Kind, Node, ValueNode};
use crate::workspace::{Workspace, WorkspaceModel};

verus! {

/// A parsed `Cargo.toml` manifest.
///
/// This struct represents the complete structure of a Cargo manifest file,
/// including package metadata, dependencies, build targets, and workspace configuration.
#[derive(Clone, Debug)]
pub struct CargoToml {
    /// The `[package]` section containing crate metadata.
    pub package: Option<Package>,
    /// The `[workspace]` section for multi-crate workspaces.
    pub workspace: Option<Workspace>,
    /// Regular dependencies from `[dependencies]`.
    pub dependencies: Option<Mapping<Dependency>>,
    /// Development dependencies from `[dev-dependencies]`.
    pub dev_dependencies: Option<Mapping<Dependency>>,
    /// Build script dependencies from `[build-dependencies]`.
    pub build_dependencies: Option<Mapping<Dependency>>,
    /// Target-specific dependencies from `[target.'cfg(...)'.dependencies]`.
    pub target: Option<Mapping<TargetSpec>>,
    /// Library target configuration from `[lib]`.
    pub lib: Option<LibTarget>,
    /// Binary targets from `[[bin]]`.
    pub bin: Option<Vec<BinTarget>>,
    /// Test targets from `[[test]]`.
    pub test: Option<Vec<TestTarget>>,
    /// Benchmark targets from `[[bench]]`.
    pub bench: Option<Vec<BenchTarget>>,
    /// Example targets from `[[example]]`.
    pub example: Option<Vec<ExampleTarget>>,
    /// Feature flags from `[features]`.
    pub features: Option<Mapping<Vec<String>>>,
    /// Dependency patches from `[patch]`.
    pub patch: Option<Mapping<Mapping<Dependency>>>,
    /// Build profiles from `[profile.*]`.
    pub profile: Option<Mapping<Profile>>,
    /// Lint configuration from `[lints]`.
    pub lints: Option<Lints>,
    /// Badges from `[badges]` (deprecated).
    pub badges: Option<Mapping<Badge>>,
}

/// The mathematical model of a [`CargoToml`].
pub struct CargoTomlModel {
    pub package: Option<PackageModel>,
    pub workspace: Option<WorkspaceModel>,
    pub dependencies: Option<Seq<(Seq<char>, DependencyModel)>>,
    pub dev_dependencies: Option<Seq<(Seq<char>, DependencyModel)>>,
    pub build_dependencies: Option<Seq<(Seq<char>, DependencyModel)>>,
    pub target: Option<Seq<(Seq<char>, TargetSpecModel)>>,
    pub lib: Option<LibTargetModel>,
    pub bin: Option<Seq<BinTargetModel>>,
    pub test: Option<Seq<TestTargetModel>>,
    pub bench: Option<Seq<BenchTargetModel>>,
    pub example: Option<Seq<ExampleTargetModel>>,
    pub features: Option<Seq<(Seq<char>, Seq<Seq<char>>)>>,
    pub patch: Option<Seq<(Seq<char>, Seq<(Seq<char>, DependencyModel)>)>>,
    pub profile: Option<Seq<(Seq<char>, ProfileModel)>>,
    pub lints: Option<LintsModel>,
    pub badges: Option<Seq<(Seq<char>, BadgeModel)>>,
}

impl DeepView for CargoToml {
    type V = CargoTomlModel;

    open spec fn deep_view(&self) -> CargoTomlModel {
        CargoTomlModel {
            package: self.package.deep_view(),
            workspace: self.workspace.deep_view(),
            dependencies: self.dependencies.deep_view(),
            dev_dependencies: self.dev_dependencies.deep_view(),
            build_dependencies: self.build_dependencies.deep_view(),
            target: self.target.deep_view(),
            lib: self.lib.deep_view(),
            bin: self.bin.deep_view(),
            test: self.test.deep_view(),
            bench: self.bench.deep_view(),
            example: self.example.deep_view(),
            features: self.features.deep_view(),
            patch: self.patch.deep_view(),
            profile: self.profile.deep_view(),
            lints: self.lints.deep_view(),
            badges: self.badges.deep_view(),
        }
    }
}

impl Decode for CargoToml {
    /// A table decodes field by field, in the order of declaration; the first
    /// field that fails gives the failure. Keys that no field names are ignored.
    open spec fn decoded(node: Node) -> Result<CargoTomlModel, Fault> {
        match node {
            Node::Table(t) => {
                let package = optional_field::<Package>(t, "package"@);
                let workspace = optional_field::<Workspace>(t, "workspace"@);
                let dependencies = optional_field::<Mapping<Dependency>>(t, "dependencies"@);
                let dev_dependencies = optional_field::<Mapping<Dependency>>(t, "dev-dependencies"@);
                let build_dependencies = optional_field::<Mapping<Dependency>>(t, "build-dependencies"@);
                let target = optional_field::<Mapping<TargetSpec>>(t, "target"@);
                let lib = optional_field::<LibTarget>(t, "lib"@);
                let bin = optional_field::<Vec<BinTarget>>(t, "bin"@);
                let test = optional_field::<Vec<TestTarget>>(t, "test"@);
                let bench = optional_field::<Vec<BenchTarget>>(t, "bench"@);
                let example = optional_field::<Vec<ExampleTarget>>(t, "example"@);
                let features = optional_field::<Mapping<Vec<String>>>(t, "features"@);
                let patch = optional_field::<Mapping<Mapping<Dependency>>>(t, "patch"@);
                let profile = optional_field::<Mapping<Profile>>(t, "profile"@);
                let lints = optional_field::<Lints>(t, "lints"@);
                let badges = optional_field::<Mapping<Badge>>(t, "badges"@);
                if package is Err {
                    Err(package->Err_0)
                } else if workspace is Err {
                    Err(workspace->Err_0)
                } else if dependencies is Err {
                    Err(dependencies->Err_0)
                } else if dev_dependencies is Err {
                    Err(dev_dependencies->Err_0)
                } else if build_dependencies is Err {
                    Err(build_dependencies->Err_0)
                } else if target is Err {
                    Err(target->Err_0)
                } else if lib is Err {
                    Err(lib->Err_0)
                } else if bin is Err {
                    Err(bin->Err_0)
                } else if test is Err {
                    Err(test->Err_0)
                } else if bench is Err {
                    Err(bench->Err_0)
                } else if example is Err {
                    Err(example->Err_0)
                } else if features is Err {
                    Err(features->Err_0)
                } else if patch is Err {
                    Err(patch->Err_0)
                } else if profile is Err {
                    Err(profile->Err_0)
                } else if lints is Err {
                    Err(lints->Err_0)
                } else if badges is Err {
                    Err(badges->Err_0)
                } else {
                    Ok(CargoTomlModel {
                        package: package->Ok_0,
                        workspace: workspace->Ok_0,
                        dependencies: dependencies->Ok_0,
                        dev_dependencies: dev_dependencies->Ok_0,
                        build_dependencies: build_dependencies->Ok_0,
                        target: target->Ok_0,
                        lib: lib->Ok_0,
                        bin: bin->Ok_0,
                        test: test->Ok_0,
                        bench: bench->Ok_0,
                        example: example->Ok_0,
                        features: features->Ok_0,
                        patch: patch->Ok_0,
                        profile: profile->Ok_0,
                        lints: lints->Ok_0,
                        badges: badges->Ok_0,
                    })
                }
            },
            _ => Err(mismatch(Kind::Table, node)),
        }
    }

    fn decode(value: &ValueNode) -> (r: Result<Self, DecodeError>) {
        let t = table_of(value)?;
        let package = field::<Package>(t, "package")?;
        let workspace = field::<Workspace>(t, "workspace")?;
        let dependencies = field::<Mapping<Dependency>>(t, "dependencies")?;
        let dev_dependencies = field::<Mapping<Dependency>>(t, "dev-dependencies")?;
        let build_dependencies = field::<Mapping<Dependency>>(t, "build-dependencies")?;
        let target = field::<Mapping<TargetSpec>>(t, "target")?;
        let lib = field::<LibTarget>(t, "lib")?;
        let bin = field::<Vec<BinTarget>>(t, "bin")?;
        let test = field::<Vec<TestTarget>>(t, "test")?;
        let bench = field::<Vec<BenchTarget>>(t, "bench")?;
        let example = field::<Vec<ExampleTarget>>(t, "example")?;
        let features = field::<Mapping<Vec<String>>>(t, "features")?;
        let patch = field::<Mapping<Mapping<Dependency>>>(t, "patch")?;
        let profile = field::<Mapping<Profile>>(t, "profile")?;
        let lints = field::<Lints>(t, "lints")?;
        let badges = field::<Mapping<Badge>>(t, "badges")?;
        Ok(
            CargoToml {
                package,
                workspace,
                dependencies,
                dev_dependencies,
                build_dependencies,
                target,
                lib,
                bin,
                test,
                bench,
                example,
                features,
                patch,
                profile,
                lints,
                badges,
            },
        )
    }
}

impl CargoToml {
    /// Parse a `Cargo.toml` from a string.
    pub fn parse(contents: &str) -> (r: Result<CargoToml, Error>)
        ensures
            match r {
                Ok(manifest) => parsed::<CargoToml>(contents@) == Ok::<CargoTomlModel, ErrorModel>(
                    manifest.deep_view(),
                ),
                Err(e) => parsed::<CargoToml>(contents@) == Err::<CargoTomlModel, ErrorModel>(
                    e.model(),
                ),
            },
    {
        parse_as::<CargoToml>(contents)
    }
}

} // verus!
