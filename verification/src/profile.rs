//! Build profiles.

use vstd::prelude::*;
use crate::decode::{
    Decode, field, mismatch, no_attempts, optional_field, record, same_text, table_of, text_of,
};
use crate::error::{attempts_model, DecodeError, Fault};
use crate::mapping::Mapping;
use crate::value::{Kind, Node, ValueNode};

verus! {

/// Build profile configuration from `[profile.*]`.
#[derive(Clone, Debug)]
pub struct Profile {
    /// Controls the optimization level (0-3, "s", or "z").
    pub opt_level: Option<OptLevel>,
    /// Controls the amount of debug information in the binary.
    pub debug: Option<DebugLevel>,
    /// Enables or disables `cfg(debug_assertions)` conditional compilation.
    pub debug_assertions: Option<bool>,
    /// Enables or disables runtime integer overflow checks.
    pub overflow_checks: Option<bool>,
    /// Controls LLVM link time optimizations.
    pub lto: Option<Lto>,
    /// Controls the panic strategy ("unwind" or "abort").
    pub panic: Option<PanicStrategy>,
    /// Enables or disables incremental compilation.
    pub incremental: Option<bool>,
    /// Controls how many code generation units a crate is split into.
    pub codegen_units: Option<u32>,
    /// Enables or disables rpath for dynamic library loading.
    pub rpath: Option<bool>,
    /// Directs rustc to strip symbols or debuginfo from the binary.
    pub strip: Option<StripLevel>,
    /// Controls whether debug information is in the executable or separate file.
    pub split_debuginfo: Option<String>,
    /// Specifies which built-in profile this custom profile inherits from.
    pub inherits: Option<String>,
    /// Per-package profile overrides.
    pub package: Option<Mapping<PackageProfile>>,
    /// Settings for build scripts and proc-macros.
    pub build_override: Option<BuildOverride>,
}

/// The mathematical model of a [`Profile`].
pub struct ProfileModel {
    pub opt_level: Option<OptLevelModel>,
    pub debug: Option<DebugLevelModel>,
    pub debug_assertions: Option<bool>,
    pub overflow_checks: Option<bool>,
    pub lto: Option<LtoModel>,
    pub panic: Option<PanicStrategy>,
    pub incremental: Option<bool>,
    pub codegen_units: Option<u32>,
    pub rpath: Option<bool>,
    pub strip: Option<StripLevelModel>,
    pub split_debuginfo: Option<Seq<char>>,
    pub inherits: Option<Seq<char>>,
    pub package: Option<Seq<(Seq<char>, PackageProfileModel)>>,
    pub build_override: Option<BuildOverrideModel>,
}

impl DeepView for Profile {
    type V = ProfileModel;

    open spec fn deep_view(&self) -> ProfileModel {
        ProfileModel {
            opt_level: self.opt_level.deep_view(),
            debug: self.debug.deep_view(),
            debug_assertions: self.debug_assertions.deep_view(),
            overflow_checks: self.overflow_checks.deep_view(),
            lto: self.lto.deep_view(),
            panic: self.panic.deep_view(),
            incremental: self.incremental.deep_view(),
            codegen_units: self.codegen_units.deep_view(),
            rpath: self.rpath.deep_view(),
            strip: self.strip.deep_view(),
            split_debuginfo: self.split_debuginfo.deep_view(),
            inherits: self.inherits.deep_view(),
            package: self.package.deep_view(),
            build_override: self.build_override.deep_view(),
        }
    }
}

impl Decode for Profile {
    /// A table decodes field by field, in the order of declaration; the first
    /// field that fails gives the failure. Keys that no field names are ignored.
    open spec fn decoded(node: Node) -> Result<ProfileModel, Fault> {
        match node {
            Node::Table(t) => {
                let opt_level = optional_field::<OptLevel>(t, "opt-level"@);
                let debug = optional_field::<DebugLevel>(t, "debug"@);
                let debug_assertions = optional_field::<bool>(t, "debug-assertions"@);
                let overflow_checks = optional_field::<bool>(t, "overflow-checks"@);
                let lto = optional_field::<Lto>(t, "lto"@);
                let panic = optional_field::<PanicStrategy>(t, "panic"@);
                let incremental = optional_field::<bool>(t, "incremental"@);
                let codegen_units = optional_field::<u32>(t, "codegen-units"@);
                let rpath = optional_field::<bool>(t, "rpath"@);
                let strip = optional_field::<StripLevel>(t, "strip"@);
                let split_debuginfo = optional_field::<String>(t, "split-debuginfo"@);
                let inherits = optional_field::<String>(t, "inherits"@);
                let package = optional_field::<Mapping<PackageProfile>>(t, "package"@);
                let build_override = optional_field::<BuildOverride>(t, "build-override"@);
                if opt_level is Err {
                    Err(opt_level->Err_0)
                } else if debug is Err {
                    Err(debug->Err_0)
                } else if debug_assertions is Err {
                    Err(debug_assertions->Err_0)
                } else if overflow_checks is Err {
                    Err(overflow_checks->Err_0)
                } else if lto is Err {
                    Err(lto->Err_0)
                } else if panic is Err {
                    Err(panic->Err_0)
                } else if incremental is Err {
                    Err(incremental->Err_0)
                } else if codegen_units is Err {
                    Err(codegen_units->Err_0)
                } else if rpath is Err {
                    Err(rpath->Err_0)
                } else if strip is Err {
                    Err(strip->Err_0)
                } else if split_debuginfo is Err {
                    Err(split_debuginfo->Err_0)
                } else if inherits is Err {
                    Err(inherits->Err_0)
                } else if package is Err {
                    Err(package->Err_0)
                } else if build_override is Err {
                    Err(build_override->Err_0)
                } else {
                    Ok(ProfileModel {
                        opt_level: opt_level->Ok_0,
                        debug: debug->Ok_0,
                        debug_assertions: debug_assertions->Ok_0,
                        overflow_checks: overflow_checks->Ok_0,
                        lto: lto->Ok_0,
                        panic: panic->Ok_0,
                        incremental: incremental->Ok_0,
                        codegen_units: codegen_units->Ok_0,
                        rpath: rpath->Ok_0,
                        strip: strip->Ok_0,
                        split_debuginfo: split_debuginfo->Ok_0,
                        inherits: inherits->Ok_0,
                        package: package->Ok_0,
                        build_override: build_override->Ok_0,
                    })
                }
            },
            _ => Err(mismatch(Kind::Table, node)),
        }
    }

    fn decode(value: &ValueNode) -> (r: Result<Self, DecodeError>) {
        let t = table_of(value)?;
        let opt_level = field::<OptLevel>(t, "opt-level")?;
        let debug = field::<DebugLevel>(t, "debug")?;
        let debug_assertions = field::<bool>(t, "debug-assertions")?;
        let overflow_checks = field::<bool>(t, "overflow-checks")?;
        let lto = field::<Lto>(t, "lto")?;
        let panic = field::<PanicStrategy>(t, "panic")?;
        let incremental = field::<bool>(t, "incremental")?;
        let codegen_units = field::<u32>(t, "codegen-units")?;
        let rpath = field::<bool>(t, "rpath")?;
        let strip = field::<StripLevel>(t, "strip")?;
        let split_debuginfo = field::<String>(t, "split-debuginfo")?;
        let inherits = field::<String>(t, "inherits")?;
        let package = field::<Mapping<PackageProfile>>(t, "package")?;
        let build_override = field::<BuildOverride>(t, "build-override")?;
        Ok(
            Profile {
                opt_level,
                debug,
                debug_assertions,
                overflow_checks,
                lto,
                panic,
                incremental,
                codegen_units,
                rpath,
                strip,
                split_debuginfo,
                inherits,
                package,
                build_override,
            },
        )
    }
}

/// Optimization level (0-3, "s", or "z").
#[derive(Clone, Debug)]
pub enum OptLevel {
    /// Numeric optimization level (0-3).
    Number(u8),
    /// Size optimization ("s" or "z").
    String(String),
}

/// The mathematical model of a [`OptLevel`].
pub enum OptLevelModel {
    Number(u8),
    String(Seq<char>),
}

impl DeepView for OptLevel {
    type V = OptLevelModel;

    open spec fn deep_view(&self) -> OptLevelModel {
        match self {
            OptLevel::Number(x) => OptLevelModel::Number(x.deep_view()),
            OptLevel::String(x) => OptLevelModel::String(x.deep_view()),
        }
    }
}

impl Decode for OptLevel {
    /// The variants are tried in the order of declaration and the first that
    /// decodes the node is taken; where none does, the failure lists each
    /// variant with the reason it failed for.
    open spec fn decoded(node: Node) -> Result<OptLevelModel, Fault> {
        let v0 = <u8 as Decode>::decoded(node);
        let v1 = <String as Decode>::decoded(node);
        if v0 is Ok {
            Ok(OptLevelModel::Number(v0->Ok_0))
        } else if v1 is Ok {
            Ok(OptLevelModel::String(v1->Ok_0))
        } else {
            Err(
                Fault::NoMatchingVariant {
                    attempted: seq![
                        ("Number"@, v0->Err_0),
                        ("String"@, v1->Err_0),
                    ],
                },
            )
        }
    }

    fn decode(value: &ValueNode) -> (r: Result<Self, DecodeError>) {
        let mut attempted = no_attempts();
        match <u8 as Decode>::decode(value) {
            Ok(x) => {
                return Ok(OptLevel::Number(x));
            },
            Err(e) => record(&mut attempted, "Number", e),
        }
        match <String as Decode>::decode(value) {
            Ok(x) => {
                return Ok(OptLevel::String(x));
            },
            Err(e) => record(&mut attempted, "String", e),
        }
        assert(attempts_model(attempted) =~= seq![
            ("Number"@, <u8 as Decode>::decoded(value.model())->Err_0),
            ("String"@, <String as Decode>::decoded(value.model())->Err_0),
        ]);
        Err(DecodeError::NoMatchingVariant { attempted })
    }
}

/// Debug information level.
#[derive(Clone, Debug)]
pub enum DebugLevel {
    /// Boolean debug info (true = full, false = none).
    Bool(bool),
    /// Numeric debug level (0, 1, or 2).
    Number(u8),
    /// Named debug level ("line-tables-only", "line-directives-only").
    String(String),
}

/// The mathematical model of a [`DebugLevel`].
pub enum DebugLevelModel {
    Bool(bool),
    Number(u8),
    String(Seq<char>),
}

impl DeepView for DebugLevel {
    type V = DebugLevelModel;

    open spec fn deep_view(&self) -> DebugLevelModel {
        match self {
            DebugLevel::Bool(x) => DebugLevelModel::Bool(x.deep_view()),
            DebugLevel::Number(x) => DebugLevelModel::Number(x.deep_view()),
            DebugLevel::String(x) => DebugLevelModel::String(x.deep_view()),
        }
    }
}

impl Decode for DebugLevel {
    /// The variants are tried in the order of declaration and the first that
    /// decodes the node is taken; where none does, the failure lists each
    /// variant with the reason it failed for.
    open spec fn decoded(node: Node) -> Result<DebugLevelModel, Fault> {
        let v0 = <bool as Decode>::decoded(node);
        let v1 = <u8 as Decode>::decoded(node);
        let v2 = <String as Decode>::decoded(node);
        if v0 is Ok {
            Ok(DebugLevelModel::Bool(v0->Ok_0))
        } else if v1 is Ok {
            Ok(DebugLevelModel::Number(v1->Ok_0))
        } else if v2 is Ok {
            Ok(DebugLevelModel::String(v2->Ok_0))
        } else {
            Err(
                Fault::NoMatchingVariant {
                    attempted: seq![
                        ("Bool"@, v0->Err_0),
                        ("Number"@, v1->Err_0),
                        ("String"@, v2->Err_0),
                    ],
                },
            )
        }
    }

    fn decode(value: &ValueNode) -> (r: Result<Self, DecodeError>) {
        let mut attempted = no_attempts();
        match <bool as Decode>::decode(value) {
            Ok(x) => {
                return Ok(DebugLevel::Bool(x));
            },
            Err(e) => record(&mut attempted, "Bool", e),
        }
        match <u8 as Decode>::decode(value) {
            Ok(x) => {
                return Ok(DebugLevel::Number(x));
            },
            Err(e) => record(&mut attempted, "Number", e),
        }
        match <String as Decode>::decode(value) {
            Ok(x) => {
                return Ok(DebugLevel::String(x));
            },
            Err(e) => record(&mut attempted, "String", e),
        }
        assert(attempts_model(attempted) =~= seq![
            ("Bool"@, <bool as Decode>::decoded(value.model())->Err_0),
            ("Number"@, <u8 as Decode>::decoded(value.model())->Err_0),
            ("String"@, <String as Decode>::decoded(value.model())->Err_0),
        ]);
        Err(DecodeError::NoMatchingVariant { attempted })
    }
}

/// Link-time optimization setting.
#[derive(Clone, Debug)]
pub enum Lto {
    /// Boolean LTO (true = "fat", false = disabled).
    Bool(bool),
    /// Named LTO mode ("thin", "fat", "off").
    String(String),
}

/// The mathematical model of a [`Lto`].
pub enum LtoModel {
    Bool(bool),
    String(Seq<char>),
}

impl DeepView for Lto {
    type V = LtoModel;

    open spec fn deep_view(&self) -> LtoModel {
        match self {
            Lto::Bool(x) => LtoModel::Bool(x.deep_view()),
            Lto::String(x) => LtoModel::String(x.deep_view()),
        }
    }
}

impl Decode for Lto {
    /// The variants are tried in the order of declaration and the first that
    /// decodes the node is taken; where none does, the failure lists each
    /// variant with the reason it failed for.
    open spec fn decoded(node: Node) -> Result<LtoModel, Fault> {
        let v0 = <bool as Decode>::decoded(node);
        let v1 = <String as Decode>::decoded(node);
        if v0 is Ok {
            Ok(LtoModel::Bool(v0->Ok_0))
        } else if v1 is Ok {
            Ok(LtoModel::String(v1->Ok_0))
        } else {
            Err(
                Fault::NoMatchingVariant {
                    attempted: seq![
                        ("Bool"@, v0->Err_0),
                        ("String"@, v1->Err_0),
                    ],
                },
            )
        }
    }

    fn decode(value: &ValueNode) -> (r: Result<Self, DecodeError>) {
        let mut attempted = no_attempts();
        match <bool as Decode>::decode(value) {
            Ok(x) => {
                return Ok(Lto::Bool(x));
            },
            Err(e) => record(&mut attempted, "Bool", e),
        }
        match <String as Decode>::decode(value) {
            Ok(x) => {
                return Ok(Lto::String(x));
            },
            Err(e) => record(&mut attempted, "String", e),
        }
        assert(attempts_model(attempted) =~= seq![
            ("Bool"@, <bool as Decode>::decoded(value.model())->Err_0),
            ("String"@, <String as Decode>::decoded(value.model())->Err_0),
        ]);
        Err(DecodeError::NoMatchingVariant { attempted })
    }
}

/// Panic strategy.
#[derive(Clone, Copy, Debug, PartialEq, Eq, Structural)]
pub enum PanicStrategy {
    /// Unwind the stack on panic.
    Unwind,
    /// Abort the process on panic.
    Abort,
}

impl DeepView for PanicStrategy {
    type V = PanicStrategy;

    open spec fn deep_view(&self) -> PanicStrategy {
        *self
    }
}

impl Decode for PanicStrategy {
    /// A string decodes to the variant that it names; any other string names none.
    open spec fn decoded(node: Node) -> Result<PanicStrategy, Fault> {
        match node {
            Node::String(s) => {
                if s == "unwind"@ {
                    Ok(PanicStrategy::Unwind)
                } else if s == "abort"@ {
                    Ok(PanicStrategy::Abort)
                } else {
                    Err(Fault::UnknownVariant { name: s })
                }
            },
            _ => Err(mismatch(Kind::String, node)),
        }
    }

    fn decode(value: &ValueNode) -> (r: Result<Self, DecodeError>) {
        let s = text_of(value)?;
        if same_text(s, "unwind") {
            Ok(PanicStrategy::Unwind)
        } else if same_text(s, "abort") {
            Ok(PanicStrategy::Abort)
        } else {
            Err(DecodeError::UnknownVariant { name: s.clone() })
        }
    }
}

/// Symbol stripping level.
#[derive(Clone, Debug)]
pub enum StripLevel {
    /// Boolean strip (true = all symbols, false = none).
    Bool(bool),
    /// Named strip level ("none", "debuginfo", "symbols").
    String(String),
}

/// The mathematical model of a [`StripLevel`].
pub enum StripLevelModel {
    Bool(bool),
    String(Seq<char>),
}

impl DeepView for StripLevel {
    type V = StripLevelModel;

    open spec fn deep_view(&self) -> StripLevelModel {
        match self {
            StripLevel::Bool(x) => StripLevelModel::Bool(x.deep_view()),
            StripLevel::String(x) => StripLevelModel::String(x.deep_view()),
        }
    }
}

impl Decode for StripLevel {
    /// The variants are tried in the order of declaration and the first that
    /// decodes the node is taken; where none does, the failure lists each
    /// variant with the reason it failed for.
    open spec fn decoded(node: Node) -> Result<StripLevelModel, Fault> {
        let v0 = <bool as Decode>::decoded(node);
        let v1 = <String as Decode>::decoded(node);
        if v0 is Ok {
            Ok(StripLevelModel::Bool(v0->Ok_0))
        } else if v1 is Ok {
            Ok(StripLevelModel::String(v1->Ok_0))
        } else {
            Err(
                Fault::NoMatchingVariant {
                    attempted: seq![
                        ("Bool"@, v0->Err_0),
                        ("String"@, v1->Err_0),
                    ],
                },
            )
        }
    }

    fn decode(value: &ValueNode) -> (r: Result<Self, DecodeError>) {
        let mut attempted = no_attempts();
        match <bool as Decode>::decode(value) {
            Ok(x) => {
                return Ok(StripLevel::Bool(x));
            },
            Err(e) => record(&mut attempted, "Bool", e),
        }
        match <String as Decode>::decode(value) {
            Ok(x) => {
                return Ok(StripLevel::String(x));
            },
            Err(e) => record(&mut attempted, "String", e),
        }
        assert(attempts_model(attempted) =~= seq![
            ("Bool"@, <bool as Decode>::decoded(value.model())->Err_0),
            ("String"@, <String as Decode>::decoded(value.model())->Err_0),
        ]);
        Err(DecodeError::NoMatchingVariant { attempted })
    }
}

/// Per-package profile overrides.
#[derive(Clone, Debug)]
pub struct PackageProfile {
    /// Controls the optimization level.
    pub opt_level: Option<OptLevel>,
    /// Controls the amount of debug information.
    pub debug: Option<DebugLevel>,
    /// Enables or disables debug assertions.
    pub debug_assertions: Option<bool>,
    /// Enables or disables overflow checks.
    pub overflow_checks: Option<bool>,
    /// Controls code generation units.
    pub codegen_units: Option<u32>,
}

/// The mathematical model of a [`PackageProfile`].
pub struct PackageProfileModel {
    pub opt_level: Option<OptLevelModel>,
    pub debug: Option<DebugLevelModel>,
    pub debug_assertions: Option<bool>,
    pub overflow_checks: Option<bool>,
    pub codegen_units: Option<u32>,
}

impl DeepView for PackageProfile {
    type V = PackageProfileModel;

    open spec fn deep_view(&self) -> PackageProfileModel {
        PackageProfileModel {
            opt_level: self.opt_level.deep_view(),
            debug: self.debug.deep_view(),
            debug_assertions: self.debug_assertions.deep_view(),
            overflow_checks: self.overflow_checks.deep_view(),
            codegen_units: self.codegen_units.deep_view(),
        }
    }
}

impl Decode for PackageProfile {
    /// A table decodes field by field, in the order of declaration; the first
    /// field that fails gives the failure. Keys that no field names are ignored.
    open spec fn decoded(node: Node) -> Result<PackageProfileModel, Fault> {
        match node {
            Node::Table(t) => {
                let opt_level = optional_field::<OptLevel>(t, "opt-level"@);
                let debug = optional_field::<DebugLevel>(t, "debug"@);
                let debug_assertions = optional_field::<bool>(t, "debug-assertions"@);
                let overflow_checks = optional_field::<bool>(t, "overflow-checks"@);
                let codegen_units = optional_field::<u32>(t, "codegen-units"@);
                if opt_level is Err {
                    Err(opt_level->Err_0)
                } else if debug is Err {
                    Err(debug->Err_0)
                } else if debug_assertions is Err {
                    Err(debug_assertions->Err_0)
                } else if overflow_checks is Err {
                    Err(overflow_checks->Err_0)
                } else if codegen_units is Err {
                    Err(codegen_units->Err_0)
                } else {
                    Ok(PackageProfileModel {
                        opt_level: opt_level->Ok_0,
                        debug: debug->Ok_0,
                        debug_assertions: debug_assertions->Ok_0,
                        overflow_checks: overflow_checks->Ok_0,
                        codegen_units: codegen_units->Ok_0,
                    })
                }
            },
            _ => Err(mismatch(Kind::Table, node)),
        }
    }

    fn decode(value: &ValueNode) -> (r: Result<Self, DecodeError>) {
        let t = table_of(value)?;
        let opt_level = field::<OptLevel>(t, "opt-level")?;
        let debug = field::<DebugLevel>(t, "debug")?;
        let debug_assertions = field::<bool>(t, "debug-assertions")?;
        let overflow_checks = field::<bool>(t, "overflow-checks")?;
        let codegen_units = field::<u32>(t, "codegen-units")?;
        Ok(
            PackageProfile {
                opt_level,
                debug,
                debug_assertions,
                overflow_checks,
                codegen_units,
            },
        )
    }
}

/// Build script and proc-macro profile overrides.
#[derive(Clone, Debug)]
pub struct BuildOverride {
    /// Controls the optimization level.
    pub opt_level: Option<OptLevel>,
    /// Controls the amount of debug information.
    pub debug: Option<DebugLevel>,
    /// Enables or disables debug assertions.
    pub debug_assertions: Option<bool>,
    /// Enables or disables overflow checks.
    pub overflow_checks: Option<bool>,
    /// Controls code generation units.
    pub codegen_units: Option<u32>,
    /// Enables or disables incremental compilation.
    pub incremental: Option<bool>,
}

/// The mathematical model of a [`BuildOverride`].
pub struct BuildOverrideModel {
    pub opt_level: Option<OptLevelModel>,
    pub debug: Option<DebugLevelModel>,
    pub debug_assertions: Option<bool>,
    pub overflow_checks: Option<bool>,
    pub codegen_units: Option<u32>,
    pub incremental: Option<bool>,
}

impl DeepView for BuildOverride {
    type V = BuildOverrideModel;

    open spec fn deep_view(&self) -> BuildOverrideModel {
        BuildOverrideModel {
            opt_level: self.opt_level.deep_view(),
            debug: self.debug.deep_view(),
            debug_assertions: self.debug_assertions.deep_view(),
            overflow_checks: self.overflow_checks.deep_view(),
            codegen_units: self.codegen_units.deep_view(),
            incremental: self.incremental.deep_view(),
        }
    }
}

impl Decode for BuildOverride {
    /// A table decodes field by field, in the order of declaration; the first
    /// field that fails gives the failure. Keys that no field names are ignored.
    open spec fn decoded(node: Node) -> Result<BuildOverrideModel, Fault> {
        match node {
            Node::Table(t) => {
                let opt_level = optional_field::<OptLevel>(t, "opt-level"@);
                let debug = optional_field::<DebugLevel>(t, "debug"@);
                let debug_assertions = optional_field::<bool>(t, "debug-assertions"@);
                let overflow_checks = optional_field::<bool>(t, "overflow-checks"@);
                let codegen_units = optional_field::<u32>(t, "codegen-units"@);
                let incremental = optional_field::<bool>(t, "incremental"@);
                if opt_level is Err {
                    Err(opt_level->Err_0)
                } else if debug is Err {
                    Err(debug->Err_0)
                } else if debug_assertions is Err {
                    Err(debug_assertions->Err_0)
                } else if overflow_checks is Err {
                    Err(overflow_checks->Err_0)
                } else if codegen_units is Err {
                    Err(codegen_units->Err_0)
                } else if incremental is Err {
                    Err(incremental->Err_0)
                } else {
                    Ok(BuildOverrideModel {
                        opt_level: opt_level->Ok_0,
                        debug: debug->Ok_0,
                        debug_assertions: debug_assertions->Ok_0,
                        overflow_checks: overflow_checks->Ok_0,
                        codegen_units: codegen_units->Ok_0,
                        incremental: incremental->Ok_0,
                    })
                }
            },
            _ => Err(mismatch(Kind::Table, node)),
        }
    }

    fn decode(value: &ValueNode) -> (r: Result<Self, DecodeError>) {
        let t = table_of(value)?;
        let opt_level = field::<OptLevel>(t, "opt-level")?;
        let debug = field::<DebugLevel>(t, "debug")?;
        let debug_assertions = field::<bool>(t, "debug-assertions")?;
        let overflow_checks = field::<bool>(t, "overflow-checks")?;
        let codegen_units = field::<u32>(t, "codegen-units")?;
        let incremental = field::<bool>(t, "incremental")?;
        Ok(
            BuildOverride {
                opt_level,
                debug,
                debug_assertions,
                overflow_checks,
                codegen_units,
                incremental,
            },
        )
    }
}

} // verus!
