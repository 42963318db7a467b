//! Lint configuration and badges.

use vstd::prelude::*;
use crate::decode::{
    Decode, field, mismatch, named_unit, no_attempts, optional_field, record, required,
    required_field, same_text, table_of, text_of, unit_named,
};
use crate::error::{attempts_model, DecodeError, Fault};
use crate::mapping::Mapping;
use crate::value::{Kind, Node, ValueNode};

verus! {

/// The `[lints]` section for configuring compiler lints.
#[derive(Clone, Debug)]
pub struct Lints {
    /// Inherit lint configuration from workspace.
    pub workspace: Option<bool>,
    /// Rust compiler lint levels.
    pub rust: Option<Mapping<LintLevel>>,
    /// Clippy lint levels.
    pub clippy: Option<Mapping<LintLevel>>,
    /// Rustdoc lint levels.
    pub rustdoc: Option<Mapping<LintLevel>>,
}

/// The mathematical model of a [`Lints`].
pub struct LintsModel {
    pub workspace: Option<bool>,
    pub rust: Option<Seq<(Seq<char>, LintLevelModel)>>,
    pub clippy: Option<Seq<(Seq<char>, LintLevelModel)>>,
    pub rustdoc: Option<Seq<(Seq<char>, LintLevelModel)>>,
}

impl DeepView for Lints {
    type V = LintsModel;

    open spec fn deep_view(&self) -> LintsModel {
        LintsModel {
            workspace: self.workspace.deep_view(),
            rust: self.rust.deep_view(),
            clippy: self.clippy.deep_view(),
            rustdoc: self.rustdoc.deep_view(),
        }
    }
}

impl Decode for Lints {
    /// A table decodes field by field, in the order of declaration; the first
    /// field that fails gives the failure. Keys that no field names are ignored.
    open spec fn decoded(node: Node) -> Result<LintsModel, Fault> {
        match node {
            Node::Table(t) => {
                let workspace = optional_field::<bool>(t, "workspace"@);
                let rust = optional_field::<Mapping<LintLevel>>(t, "rust"@);
                let clippy = optional_field::<Mapping<LintLevel>>(t, "clippy"@);
                let rustdoc = optional_field::<Mapping<LintLevel>>(t, "rustdoc"@);
                if workspace is Err {
                    Err(workspace->Err_0)
                } else if rust is Err {
                    Err(rust->Err_0)
                } else if clippy is Err {
                    Err(clippy->Err_0)
                } else if rustdoc is Err {
                    Err(rustdoc->Err_0)
                } else {
                    Ok(LintsModel {
                        workspace: workspace->Ok_0,
                        rust: rust->Ok_0,
                        clippy: clippy->Ok_0,
                        rustdoc: rustdoc->Ok_0,
                    })
                }
            },
            _ => Err(mismatch(Kind::Table, node)),
        }
    }

    fn decode(value: &ValueNode) -> (r: Result<Self, DecodeError>) {
        let t = table_of(value)?;
        let workspace = field::<bool>(t, "workspace")?;
        let rust = field::<Mapping<LintLevel>>(t, "rust")?;
        let clippy = field::<Mapping<LintLevel>>(t, "clippy")?;
        let rustdoc = field::<Mapping<LintLevel>>(t, "rustdoc")?;
        Ok(Lints { workspace, rust, clippy, rustdoc })
    }
}

/// Lint level configuration.
#[derive(Clone, Debug)]
pub enum LintLevel {
    /// Detailed config with priority.
    Config(LintConfig),
    /// Forbid the lint (error, cannot be overridden).
    Forbid,
    /// Deny the lint (error).
    Deny,
    /// Warn on the lint.
    Warn,
    /// Allow the lint (silence it).
    Allow,
}

/// The mathematical model of a [`LintLevel`].
pub enum LintLevelModel {
    Config(LintConfigModel),
    Forbid,
    Deny,
    Warn,
    Allow,
}

impl DeepView for LintLevel {
    type V = LintLevelModel;

    open spec fn deep_view(&self) -> LintLevelModel {
        match self {
            LintLevel::Config(x) => LintLevelModel::Config(x.deep_view()),
            LintLevel::Forbid => LintLevelModel::Forbid,
            LintLevel::Deny => LintLevelModel::Deny,
            LintLevel::Warn => LintLevelModel::Warn,
            LintLevel::Allow => LintLevelModel::Allow,
        }
    }
}

impl Decode for LintLevel {
    /// The variants are tried in the order of declaration and the first that
    /// decodes the node is taken; where none does, the failure lists each
    /// variant with the reason it failed for.
    open spec fn decoded(node: Node) -> Result<LintLevelModel, Fault> {
        let v0 = <LintConfig as Decode>::decoded(node);
        let v1 = named_unit(node, "forbid"@);
        let v2 = named_unit(node, "deny"@);
        let v3 = named_unit(node, "warn"@);
        let v4 = named_unit(node, "allow"@);
        if v0 is Ok {
            Ok(LintLevelModel::Config(v0->Ok_0))
        } else if v1 is Ok {
            Ok(LintLevelModel::Forbid)
        } else if v2 is Ok {
            Ok(LintLevelModel::Deny)
        } else if v3 is Ok {
            Ok(LintLevelModel::Warn)
        } else if v4 is Ok {
            Ok(LintLevelModel::Allow)
        } else {
            Err(
                Fault::NoMatchingVariant {
                    attempted: seq![
                        ("Config"@, v0->Err_0),
                        ("Forbid"@, v1->Err_0),
                        ("Deny"@, v2->Err_0),
                        ("Warn"@, v3->Err_0),
                        ("Allow"@, v4->Err_0),
                    ],
                },
            )
        }
    }

    fn decode(value: &ValueNode) -> (r: Result<Self, DecodeError>) {
        let mut attempted = no_attempts();
        match <LintConfig as Decode>::decode(value) {
            Ok(x) => {
                return Ok(LintLevel::Config(x));
            },
            Err(e) => record(&mut attempted, "Config", e),
        }
        match unit_named(value, "forbid") {
            Ok(_) => {
                return Ok(LintLevel::Forbid);
            },
            Err(e) => record(&mut attempted, "Forbid", e),
        }
        match unit_named(value, "deny") {
            Ok(_) => {
                return Ok(LintLevel::Deny);
            },
            Err(e) => record(&mut attempted, "Deny", e),
        }
        match unit_named(value, "warn") {
            Ok(_) => {
                return Ok(LintLevel::Warn);
            },
            Err(e) => record(&mut attempted, "Warn", e),
        }
        match unit_named(value, "allow") {
            Ok(_) => {
                return Ok(LintLevel::Allow);
            },
            Err(e) => record(&mut attempted, "Allow", e),
        }
        assert(attempts_model(attempted) =~= seq![
            ("Config"@, <LintConfig as Decode>::decoded(value.model())->Err_0),
            ("Forbid"@, named_unit(value.model(), "forbid"@)->Err_0),
            ("Deny"@, named_unit(value.model(), "deny"@)->Err_0),
            ("Warn"@, named_unit(value.model(), "warn"@)->Err_0),
            ("Allow"@, named_unit(value.model(), "allow"@)->Err_0),
        ]);
        Err(DecodeError::NoMatchingVariant { attempted })
    }
}

/// Detailed lint configuration with priority.
#[derive(Clone, Debug)]
pub struct LintConfig {
    /// The lint level.
    pub level: LintLevelString,
    /// Priority for ordering lint table application.
    pub priority: Option<i32>,
    /// Custom cfg conditions to check.
    pub check_cfg: Option<Vec<String>>,
}

/// The mathematical model of a [`LintConfig`].
pub struct LintConfigModel {
    pub level: LintLevelString,
    pub priority: Option<i32>,
    pub check_cfg: Option<Seq<Seq<char>>>,
}

impl DeepView for LintConfig {
    type V = LintConfigModel;

    open spec fn deep_view(&self) -> LintConfigModel {
        LintConfigModel {
            level: self.level.deep_view(),
            priority: self.priority.deep_view(),
            check_cfg: self.check_cfg.deep_view(),
        }
    }
}

impl Decode for LintConfig {
    /// A table decodes field by field, in the order of declaration; the first
    /// field that fails gives the failure. Keys that no field names are ignored.
    open spec fn decoded(node: Node) -> Result<LintConfigModel, Fault> {
        match node {
            Node::Table(t) => {
                let level = required_field::<LintLevelString>(t, "level"@, "LintConfig"@);
                let priority = optional_field::<i32>(t, "priority"@);
                let check_cfg = optional_field::<Vec<String>>(t, "check-cfg"@);
                if level is Err {
                    Err(level->Err_0)
                } else if priority is Err {
                    Err(priority->Err_0)
                } else if check_cfg is Err {
                    Err(check_cfg->Err_0)
                } else {
                    Ok(LintConfigModel {
                        level: level->Ok_0,
                        priority: priority->Ok_0,
                        check_cfg: check_cfg->Ok_0,
                    })
                }
            },
            _ => Err(mismatch(Kind::Table, node)),
        }
    }

    fn decode(value: &ValueNode) -> (r: Result<Self, DecodeError>) {
        let t = table_of(value)?;
        let level = required::<LintLevelString>(t, "level", "LintConfig")?;
        let priority = field::<i32>(t, "priority")?;
        let check_cfg = field::<Vec<String>>(t, "check-cfg")?;
        Ok(LintConfig { level, priority, check_cfg })
    }
}

/// Simple lint level string.
#[derive(Clone, Copy, Debug, PartialEq, Eq, Structural)]
pub enum LintLevelString {
    /// Forbid the lint.
    Forbid,
    /// Deny the lint.
    Deny,
    /// Warn on the lint.
    Warn,
    /// Allow the lint.
    Allow,
}

impl DeepView for LintLevelString {
    type V = LintLevelString;

    open spec fn deep_view(&self) -> LintLevelString {
        *self
    }
}

impl Decode for LintLevelString {
    /// A string decodes to the variant that it names; any other string names none.
    open spec fn decoded(node: Node) -> Result<LintLevelString, Fault> {
        match node {
            Node::String(s) => {
                if s == "forbid"@ {
                    Ok(LintLevelString::Forbid)
                } else if s == "deny"@ {
                    Ok(LintLevelString::Deny)
                } else if s == "warn"@ {
                    Ok(LintLevelString::Warn)
                } else if s == "allow"@ {
                    Ok(LintLevelString::Allow)
                } else {
                    Err(Fault::UnknownVariant { name: s })
                }
            },
            _ => Err(mismatch(Kind::String, node)),
        }
    }

    fn decode(value: &ValueNode) -> (r: Result<Self, DecodeError>) {
        let s = text_of(value)?;
        if same_text(s, "forbid") {
            Ok(LintLevelString::Forbid)
        } else if same_text(s, "deny") {
            Ok(LintLevelString::Deny)
        } else if same_text(s, "warn") {
            Ok(LintLevelString::Warn)
        } else if same_text(s, "allow") {
            Ok(LintLevelString::Allow)
        } else {
            Err(DecodeError::UnknownVariant { name: s.clone() })
        }
    }
}

/// Badge configuration (deprecated).
#[derive(Clone, Debug)]
pub struct Badge {
    /// Badge-specific attributes (varies by badge type): the badge's own table.
    pub attributes: ValueNode,
}

/// The mathematical model of a [`Badge`].
pub struct BadgeModel {
    pub attributes: Node,
}

impl DeepView for Badge {
    type V = BadgeModel;

    open spec fn deep_view(&self) -> BadgeModel {
        BadgeModel { attributes: self.attributes.deep_view() }
    }
}

impl Decode for Badge {
    /// A badge takes any table, and keeps it whole.
    open spec fn decoded(node: Node) -> Result<BadgeModel, Fault> {
        match node {
            Node::Table(_) => Ok(BadgeModel { attributes: node }),
            _ => Err(mismatch(Kind::Table, node)),
        }
    }

    fn decode(value: &ValueNode) -> (r: Result<Self, DecodeError>) {
        let _ = table_of(value)?;
        Ok(Badge { attributes: value.duplicate() })
    }
}

} // verus!
